//! In-memory model of the account credential store.
//!
//! The durable store is an external table of accounts; this crate
//! consumes it through three operations — lookup by key, lookup by
//! identifier, and insert — and this module states and checks their
//! contract: identifiers are unique, API keys are unique and bound
//! one-to-one to identifiers, and an insert of a taken identifier fails
//! with a distinct duplicate error while leaving the store unchanged.

use vstd::prelude::*;

verus! {

/// One account: an identifier and the API key bound to it.
pub struct Account {
    /// Unique account identifier (an opaque string; no shape is
    /// validated).
    pub identifier: String,
    /// Unique secret bearer token of this account.
    pub api_key: String,
}

/// Why an insert was refused.
#[derive(Clone, Copy, PartialEq, Eq, Structural, Debug)]
pub enum RegisterError {
    /// The identifier is already registered.
    DuplicateIdentifier,
    /// The key is already bound to another identifier.
    DuplicateKey,
}

/// The set of accounts, with unique identifiers and unique keys.
pub struct CredentialStore {
    accounts: Vec<Account>,
}

impl CredentialStore {
    /// The accounts, in insertion order.
    pub closed spec fn accounts_view(&self) -> Seq<Account> {
        self.accounts@
    }

    /// No two accounts share an identifier, and no two share a key.
    pub open spec fn wf(&self) -> bool {
        forall|i: int, j: int|
            0 <= i < j < self.accounts_view().len() ==> {
                &&& self.accounts_view()[i].identifier@
                    != self.accounts_view()[j].identifier@
                &&& self.accounts_view()[i].api_key@ != self.accounts_view()[j].api_key@
            }
    }

    /// Some account holds this identifier.
    pub open spec fn has_identifier(&self, id: Seq<char>) -> bool {
        exists|i: int|
            0 <= i < self.accounts_view().len() && self.accounts_view()[i].identifier@ == id
    }

    /// Some account holds this key.
    pub open spec fn has_key(&self, key: Seq<char>) -> bool {
        exists|i: int|
            0 <= i < self.accounts_view().len() && self.accounts_view()[i].api_key@ == key
    }

    /// An empty store.
    pub fn new() -> (r: CredentialStore)
        ensures
            r.wf(),
            r.accounts_view().len() == 0,
    {
        CredentialStore { accounts: Vec::new() }
    }

    /// Number of registered accounts.
    pub fn len(&self) -> (n: usize)
        ensures
            n == self.accounts_view().len(),
    {
        self.accounts.len()
    }

    /// Existence lookup by API key: the check the authorization gate
    /// relies on.
    pub fn find_by_key(&self, key: &String) -> (r: bool)
        ensures
            r == self.has_key(key@),
    {
        let mut i: usize = 0;
        while i < self.accounts.len()
            invariant
                i <= self.accounts_view().len(),
                forall|j: int| 0 <= j < i ==> self.accounts_view()[j].api_key@ != key@,
            decreases self.accounts_view().len() - i,
        {
            if self.accounts[i].api_key == *key {
                return true;
            }
            i += 1;
        }
        false
    }

    /// Existence lookup by identifier: the login probe.
    pub fn find_by_identifier(&self, id: &String) -> (r: bool)
        ensures
            r == self.has_identifier(id@),
    {
        let mut i: usize = 0;
        while i < self.accounts.len()
            invariant
                i <= self.accounts_view().len(),
                forall|j: int| 0 <= j < i ==> self.accounts_view()[j].identifier@ != id@,
            decreases self.accounts_view().len() - i,
        {
            if self.accounts[i].identifier == *id {
                return true;
            }
            i += 1;
        }
        false
    }

    /// Register an account. Fails with a distinct duplicate error — and
    /// leaves the store unchanged — when the identifier is taken, or,
    /// failing that, when the key is; otherwise appends the account.
    /// Every credential that could be looked up before still can be
    /// after.
    pub fn insert(&mut self, identifier: String, api_key: String) -> (r: Result<
        (),
        RegisterError,
    >)
        requires
            old(self).wf(),
        ensures
            final(self).wf(),
            old(self).has_identifier(identifier@) ==> {
                &&& r == Err::<(), RegisterError>(RegisterError::DuplicateIdentifier)
                &&& *final(self) == *old(self)
            },
            !old(self).has_identifier(identifier@) && old(self).has_key(api_key@) ==> {
                &&& r == Err::<(), RegisterError>(RegisterError::DuplicateKey)
                &&& *final(self) == *old(self)
            },
            !old(self).has_identifier(identifier@) && !old(self).has_key(api_key@) ==> {
                &&& r is Ok
                &&& final(self).accounts_view().len() == old(self).accounts_view().len() + 1
                &&& final(self).accounts_view().last().identifier@ == identifier@
                &&& final(self).accounts_view().last().api_key@ == api_key@
                &&& final(self).accounts_view().drop_last() == old(self).accounts_view()
                &&& final(self).has_identifier(identifier@)
                &&& final(self).has_key(api_key@)
            },
            forall|k: Seq<char>| old(self).has_key(k) ==> final(self).has_key(k),
            forall|id: Seq<char>| old(self).has_identifier(id) ==> final(self).has_identifier(id),
    {
        if self.find_by_identifier(&identifier) {
            return Err(RegisterError::DuplicateIdentifier);
        }
        if self.find_by_key(&api_key) {
            return Err(RegisterError::DuplicateKey);
        }
        let ghost pre = *self;
        self.accounts.push(Account { identifier, api_key });
        proof {
            assert(self.accounts_view().drop_last() =~= pre.accounts_view());
            assert forall|k: Seq<char>| pre.has_key(k) implies self.has_key(k) by {
                let i = choose|i: int|
                    0 <= i < pre.accounts_view().len() && pre.accounts_view()[i].api_key@ == k;
                assert(self.accounts_view()[i].api_key@ == k);
            }
            assert forall|id: Seq<char>| pre.has_identifier(id) implies self.has_identifier(
                id,
            ) by {
                let i = choose|i: int|
                    0 <= i < pre.accounts_view().len() && pre.accounts_view()[i].identifier@
                        == id;
                assert(self.accounts_view()[i].identifier@ == id);
            }
            assert(self.accounts_view().last().identifier@ == identifier@);
            assert forall|i: int, j: int|
                0 <= i < j < self.accounts_view().len() implies {
                &&& self.accounts_view()[i].identifier@ != self.accounts_view()[j].identifier@
                &&& self.accounts_view()[i].api_key@ != self.accounts_view()[j].api_key@
            } by {
                if j < pre.accounts_view().len() {
                    assert(pre.accounts_view()[i].identifier@
                        != pre.accounts_view()[j].identifier@);
                } else {
                    assert(self.accounts_view()[i] == pre.accounts_view()[i]);
                    if self.accounts_view()[i].identifier@ == identifier@ {
                        assert(pre.has_identifier(identifier@));
                    }
                    if self.accounts_view()[i].api_key@ == api_key@ {
                        assert(pre.has_key(api_key@));
                    }
                }
            }
        }
        Ok(())
    }
}

/// The lower-case hex digit of a value below sixteen.
pub open spec fn hex_digit(n: u8) -> char {
    if n == 0 {
        '0'
    } else if n == 1 {
        '1'
    } else if n == 2 {
        '2'
    } else if n == 3 {
        '3'
    } else if n == 4 {
        '4'
    } else if n == 5 {
        '5'
    } else if n == 6 {
        '6'
    } else if n == 7 {
        '7'
    } else if n == 8 {
        '8'
    } else if n == 9 {
        '9'
    } else if n == 10 {
        'a'
    } else if n == 11 {
        'b'
    } else if n == 12 {
        'c'
    } else if n == 13 {
        'd'
    } else if n == 14 {
        'e'
    } else {
        'f'
    }
}

/// Lower-case hex of a byte string: two digits per byte, high nibble
/// first.
pub open spec fn hex_of(bs: Seq<u8>) -> Seq<char>
    decreases bs.len(),
{
    if bs.len() == 0 {
        Seq::empty()
    } else {
        hex_of(bs.drop_last()).push(hex_digit(bs.last() / 16)).push(hex_digit(bs.last() % 16))
    }
}

/// The one-character string of a hex digit.
fn hex_digit_str(n: u8) -> (r: &'static str)
    requires
        n < 16,
    ensures
        r@.len() == 1,
        r@[0] == hex_digit(n),
{
    proof {
        reveal_strlit("0");
        reveal_strlit("1");
        reveal_strlit("2");
        reveal_strlit("3");
        reveal_strlit("4");
        reveal_strlit("5");
        reveal_strlit("6");
        reveal_strlit("7");
        reveal_strlit("8");
        reveal_strlit("9");
        reveal_strlit("a");
        reveal_strlit("b");
        reveal_strlit("c");
        reveal_strlit("d");
        reveal_strlit("e");
        reveal_strlit("f");
    }
    match n {
        0 => "0",
        1 => "1",
        2 => "2",
        3 => "3",
        4 => "4",
        5 => "5",
        6 => "6",
        7 => "7",
        8 => "8",
        9 => "9",
        10 => "a",
        11 => "b",
        12 => "c",
        13 => "d",
        14 => "e",
        _ => "f",
    }
}

/// Format a freshly drawn byte string as an API key: the fixed key
/// prefix followed by the bytes in lower-case hex. The bytes themselves
/// come from the caller's entropy source; no part of the key is derived
/// from the account identifier.
pub fn api_key_from_bytes(bytes: &Vec<u8>) -> (r: String)
    ensures
        r@ == "sk_live_"@ + hex_of(bytes@),
{
    let mut s = "sk_live_".to_owned();
    let mut i: usize = 0;
    while i < bytes.len()
        invariant
            i <= bytes@.len(),
            s@ == "sk_live_"@ + hex_of(bytes@.subrange(0, i as int)),
        decreases bytes@.len() - i,
    {
        let b = bytes[i];
        s.append(hex_digit_str(b / 16));
        s.append(hex_digit_str(b % 16));
        i += 1;
        proof {
            let sub = bytes@.subrange(0, i as int);
            assert(sub.drop_last() =~= bytes@.subrange(0, i - 1));
            assert(sub.last() == bytes@[i - 1]);
            assert(s@ =~= "sk_live_"@ + hex_of(sub));
        }
    }
    proof {
        assert(bytes@.subrange(0, bytes@.len() as int) =~= bytes@);
    }
    s
}

/// A summary of one account as shown on the console, all fields plain
/// display strings.
pub struct UserProfile {
    /// The wallet or account identifier shown.
    pub wallet: String,
    /// The subscription tier label.
    pub tier: String,
    /// The usage allowance label.
    pub usage_limit: String,
    /// The account status label.
    pub status: String,
}

} // verus!
