//! Criteria that select account updates.
use solana_rpc_client_api::filter;
use vstd::prelude::*;

use crate::bytes::{first_bytes_are, first_bytes_match, DISCRIMINATOR_LEN};
use crate::keys::{clone_key_set, key_set, key_set_contains};
use crate::types::Pubkey;

verus! {

/// The bytes of a comparison, in the encoding that they were given in.
#[derive(Debug, Clone, PartialEq, Eq)]
pub enum MemcmpEncodedBytes {
    Base58(String),
    Base64(String),
    Bytes(Vec<u8>),
}

/// A comparison of account data at an offset with given bytes.
#[derive(Debug, PartialEq, Eq)]
pub struct Memcmp {
    /// Data offset to begin match
    pub offset: usize,
    /// Bytes, encoded with specified encoding
    pub bytes: MemcmpEncodedBytes,
}

/// What `bs58::decode(text).into_vec()` gives, with its default alphabet:
/// `None` where the text is not base 58.
pub uninterp spec fn base58_bytes(text: Seq<char>) -> Option<Seq<u8>>;

/// What the `base64` crate's standard engine decodes from a text: `None` where
/// the text is not padded base 64 in the standard alphabet.
pub uninterp spec fn base64_bytes(text: Seq<char>) -> Option<Seq<u8>>;

/// Whether `data` holds `pattern` at `offset`.
pub open spec fn holds_at(data: Seq<u8>, offset: usize, pattern: Seq<u8>) -> bool {
    &&& offset + pattern.len() <= data.len()
    &&& data.subrange(offset as int, offset + pattern.len()) == pattern
}

/// The encoded bytes of a comparison, as sequences.
pub enum EncodedPattern {
    Base58(Seq<char>),
    Base64(Seq<char>),
    Bytes(Seq<u8>),
}

/// A comparison of account data at an offset, with its bytes as sequences.
pub struct ByteComparison {
    pub offset: usize,
    pub bytes: EncodedPattern,
}

impl ByteComparison {
    /// The bytes to compare with, where their encoding is valid.
    pub open spec fn pattern(self) -> Option<Seq<u8>> {
        match self.bytes {
            EncodedPattern::Base58(text) => base58_bytes(text),
            EncodedPattern::Base64(text) => base64_bytes(text),
            EncodedPattern::Bytes(bytes) => Some(bytes),
        }
    }

    /// Whether `data` holds the pattern at the offset. Bytes in an invalid
    /// encoding match nothing.
    pub open spec fn accepts(self, data: Seq<u8>) -> bool {
        match self.pattern() {
            Some(pattern) => holds_at(data, self.offset, pattern),
            None => false,
        }
    }
}

impl View for Memcmp {
    type V = ByteComparison;

    open spec fn view(&self) -> ByteComparison {
        ByteComparison {
            offset: self.offset,
            bytes: match self.bytes {
                MemcmpEncodedBytes::Base58(text) => EncodedPattern::Base58(text@),
                MemcmpEncodedBytes::Base64(text) => EncodedPattern::Base64(text@),
                MemcmpEncodedBytes::Bytes(bytes) => EncodedPattern::Bytes(bytes@),
            },
        }
    }
}

impl Clone for Memcmp {
    fn clone(&self) -> (copy: Self)
        ensures
            copy@ == self@,
    {
        Memcmp {
            offset: self.offset,
            bytes: match &self.bytes {
                MemcmpEncodedBytes::Base58(text) => MemcmpEncodedBytes::Base58(text.clone()),
                MemcmpEncodedBytes::Base64(text) => MemcmpEncodedBytes::Base64(text.clone()),
                MemcmpEncodedBytes::Bytes(bytes) => MemcmpEncodedBytes::Bytes(bytes.clone()),
            },
        }
    }
}

impl Memcmp {
    /// Compares with `Memcmp::bytes_match` of `solana_rpc_client_api`: the
    /// bytes are decoded (`bs58` and `base64` do so; their results are the
    /// named ones) and looked for at the offset.
    #[verifier::external_body]
    fn bytes_match(&self, data: &[u8]) -> (matched: bool)
        ensures
            matched == (match self.bytes {
                MemcmpEncodedBytes::Base58(text) => match base58_bytes(text@) {
                    Some(pattern) => holds_at(data@, self.offset, pattern),
                    None => false,
                },
                MemcmpEncodedBytes::Base64(text) => match base64_bytes(text@) {
                    Some(pattern) => holds_at(data@, self.offset, pattern),
                    None => false,
                },
                MemcmpEncodedBytes::Bytes(bytes) => holds_at(data@, self.offset, bytes@),
            }),
    {
        let bytes = match self.bytes.clone() {
            MemcmpEncodedBytes::Base58(text) => filter::MemcmpEncodedBytes::Base58(text),
            MemcmpEncodedBytes::Base64(text) => filter::MemcmpEncodedBytes::Base64(text),
            MemcmpEncodedBytes::Bytes(bytes) => filter::MemcmpEncodedBytes::Bytes(bytes),
        };
        filter::Memcmp::new(self.offset, bytes).bytes_match(data)
    }
}

/// The criteria of a filter.
pub struct FilterCriteria {
    pub discriminator: Option<Seq<u8>>,
    pub memcmp: Option<ByteComparison>,
    pub accounts: Option<Set<Pubkey>>,
    pub is_full: bool,
}

impl FilterCriteria {
    /// Whether the discriminator is set and is what the data begins with.
    pub open spec fn discriminator_hit(self, data: Seq<u8>) -> bool {
        self.discriminator matches Some(d) && first_bytes_are(data, DISCRIMINATOR_LEN as nat, d)
    }

    /// Whether the key set is set and holds `pubkey`.
    pub open spec fn accounts_hit(self, pubkey: Pubkey) -> bool {
        self.accounts matches Some(keys) && keys.contains(pubkey)
    }

    /// Whether the comparison is set and matches.
    pub open spec fn memcmp_hit(self, data: Seq<u8>) -> bool {
        self.memcmp matches Some(memcmp) && memcmp.accepts(data)
    }

    /// What a filter decides of an account, given whether its comparison, where
    /// there is one, matches: in full mode every criterion that is set has to
    /// hit, in partial mode one is enough.
    pub open spec fn decides(self, pubkey: Pubkey, data: Seq<u8>, memcmp_matched: bool) -> bool {
        if self.is_full {
            &&& self.discriminator is Some ==> self.discriminator_hit(data)
            &&& self.accounts is Some ==> self.accounts_hit(pubkey)
            &&& self.memcmp is Some ==> memcmp_matched
        } else {
            ||| self.discriminator_hit(data)
            ||| self.accounts_hit(pubkey)
            ||| self.memcmp is Some && memcmp_matched
        }
    }

    /// Whether a filter selects an account.
    pub open spec fn selects(self, pubkey: Pubkey, data: Seq<u8>) -> bool {
        self.decides(pubkey, data, self.memcmp_hit(data))
    }
}

/// Provides filter criteria for accounts over ZMQ
///
/// There are two filter modes:
///
/// * `full` - requires all filters to trigger a match
/// * `partial` - any one filter will trigger a match
#[derive(Debug)]
pub struct AccountFilter {
    /// optionally filter updates by discriminator
    discriminator: Option<&'static [u8]>,
    /// optionally filter updates by memcmp matches
    memcmp: Option<Memcmp>,
    /// optionally filter updates by pubkey
    accounts: Option<ahash::HashSet<Pubkey>>,
    /// true = full match mode, false = partial
    is_full: bool,
}

impl View for AccountFilter {
    type V = FilterCriteria;

    closed spec fn view(&self) -> FilterCriteria {
        FilterCriteria {
            discriminator: match self.discriminator {
                Some(d) => Some(d@),
                None => None,
            },
            memcmp: match self.memcmp {
                Some(memcmp) => Some(memcmp@),
                None => None,
            },
            accounts: match self.accounts {
                Some(keys) => Some(keys@),
                None => None,
            },
            is_full: self.is_full,
        }
    }
}

impl Clone for AccountFilter {
    fn clone(&self) -> (copy: Self)
        ensures
            copy@ == self@,
    {
        AccountFilter {
            discriminator: self.discriminator,
            memcmp: match &self.memcmp {
                Some(memcmp) => Some(memcmp.clone()),
                None => None,
            },
            accounts: match &self.accounts {
                Some(keys) => Some(clone_key_set(keys)),
                None => None,
            },
            is_full: self.is_full,
        }
    }
}

/// The criteria of a filter of the given mode with nothing set.
pub open spec fn no_criteria(is_full: bool) -> FilterCriteria {
    FilterCriteria { discriminator: None, memcmp: None, accounts: None, is_full }
}

impl Default for AccountFilter {
    /// A partial filter with nothing set.
    fn default() -> (filter: Self)
        ensures
            filter@ == no_criteria(false),
    {
        AccountFilter { discriminator: None, memcmp: None, accounts: None, is_full: false }
    }
}

impl AccountFilter {
    /// Create a filter that matches ALL accounts!
    pub fn firehose() -> (filter: Self)
        ensures
            filter@ == no_criteria(true),
            forall|pubkey: Pubkey, data: Seq<u8>| #[trigger] filter@.selects(pubkey, data),
    {
        AccountFilter::full()
    }

    /// Create a filter that matches iff all parameters are satisfied
    pub fn full() -> (filter: Self)
        ensures
            filter@ == no_criteria(true),
    {
        AccountFilter { discriminator: None, memcmp: None, accounts: None, is_full: true }
    }

    /// Create a filter that matches when any criteria is satisfied
    pub fn partial() -> (filter: Self)
        ensures
            filter@ == no_criteria(false),
    {
        AccountFilter { discriminator: None, memcmp: None, accounts: None, is_full: false }
    }

    /// add filter for given `pubkeys`
    pub fn with_accounts(self, pubkeys: Vec<Pubkey>) -> (filter: Self)
        ensures
            filter@ == (FilterCriteria { accounts: Some(pubkeys@.to_set()), ..self@ }),
    {
        AccountFilter { accounts: Some(key_set(pubkeys)), ..self }
    }

    /// add filter for given anchor account `discriminator`
    pub fn with_discriminator(self, discriminator: &'static [u8]) -> (filter: Self)
        ensures
            filter@ == (FilterCriteria { discriminator: Some(discriminator@), ..self@ }),
    {
        AccountFilter { discriminator: Some(discriminator), ..self }
    }

    /// add filter for given memcmp filter
    pub fn with_memcmp(self, memcmp: Memcmp) -> (filter: Self)
        ensures
            filter@ == (FilterCriteria { memcmp: Some(memcmp@), ..self@ }),
    {
        AccountFilter { memcmp: Some(memcmp), ..self }
    }

    /// What the filter decides of pubkey/account when it is known whether its
    /// comparison, where there is one, matches.
    pub fn matches_given(&self, pubkey: &Pubkey, account_data: &[u8], memcmp_matched: bool) -> (hit:
        bool)
        ensures
            hit == self@.decides(*pubkey, account_data@, memcmp_matched),
    {
        if !self.is_full {
            (match self.discriminator {
                Some(x) => first_bytes_match(account_data, DISCRIMINATOR_LEN, x),
                None => false,
            }) || (match &self.accounts {
                Some(x) => key_set_contains(x, pubkey),
                None => false,
            }) || (self.memcmp.is_some() && memcmp_matched)
        } else {
            (match self.discriminator {
                Some(x) => first_bytes_match(account_data, DISCRIMINATOR_LEN, x),
                None => true,
            }) && (match &self.accounts {
                Some(x) => key_set_contains(x, pubkey),
                None => true,
            }) && (self.memcmp.is_none() || memcmp_matched)
        }
    }

    /// Returns true if pubkey/account matches the filter
    pub fn matches(&self, pubkey: &Pubkey, account_data: &[u8]) -> (hit: bool)
        ensures
            hit == self@.selects(*pubkey, account_data@),
    {
        let memcmp_matched = match &self.memcmp {
            Some(memcmp) => memcmp.bytes_match(account_data),
            None => false,
        };
        self.matches_given(pubkey, account_data, memcmp_matched)
    }
}

} // verus!
