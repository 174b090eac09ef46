use crate::controlled::ControlledPrivate;
use crate::redacted::string_push;
use crate::random::{RandomError, SafeRand};
use crate::Protected;
use vstd::prelude::*;

verus! {

/// The character table passwords draw from: upper case, lower case,
/// digits, then symbols.
pub closed spec fn spec_standard_chars() -> Seq<char> {
    seq![
        'A', 'B', 'C', 'D', 'E', 'F', 'G', 'H', 'I', 'J', 'K', 'L', 'M', 'N', 'O', 'P', 'Q', 'R',
        'S', 'T', 'U', 'V', 'W', 'X', 'Y', 'Z', 'a', 'b', 'c', 'e', 'e', 'f', 'g', 'h', 'i', 'j',
        'k', 'l', 'm', 'n', 'o', 'p', 'q', 'r', 's', 't', 'u', 'v', 'w', 'x', 'y', 'x', '0', '1',
        '2', '3', '4', '5', '6', '7', '8', '9', '~', '`', '!', '@', '#', '$', '%', '^', '&', '*',
        '(', ')', '_', '-', '+', '=', '{', '[', '}', ']', '|', '\\', ':', ';', '"', '\'', '<', ',',
        '>', '.', '?', '/',
    ]
}

/// The character table, as a value.
fn standard_chars() -> (r: [char; 94])
    ensures
        r@ == spec_standard_chars(),
{
    let t: [char; 94] = [
        'A', 'B', 'C', 'D', 'E', 'F', 'G', 'H', 'I', 'J', 'K', 'L', 'M', 'N', 'O', 'P', 'Q', 'R',
        'S', 'T', 'U', 'V', 'W', 'X', 'Y', 'Z', 'a', 'b', 'c', 'e', 'e', 'f', 'g', 'h', 'i', 'j',
        'k', 'l', 'm', 'n', 'o', 'p', 'q', 'r', 's', 't', 'u', 'v', 'w', 'x', 'y', 'x', '0', '1',
        '2', '3', '4', '5', '6', '7', '8', '9', '~', '`', '!', '@', '#', '$', '%', '^', '&', '*',
        '(', ')', '_', '-', '+', '=', '{', '[', '}', ']', '|', '\\', ':', ';', '"', '\'', '<', ',',
        '>', '.', '?', '/',
    ];
    proof {
        assert(t@ =~= spec_standard_chars());
    }
    t
}

/// Is `c` one of the first `k` characters of the table?
pub open spec fn from_table_prefix(c: char, k: int) -> bool {
    exists|j: int| 0 <= j < k && spec_standard_chars()[j] == c
}

/// A generated password: `N` characters from the full table, protected.
pub struct Password<const N: usize>(pub(crate) Protected<[char; N]>);

/// A generated password restricted to letters and digits.
pub struct AlphaNumericPassword<const N: usize>(pub(crate) Password<N>);

/// A generated password restricted to letters.
pub struct AlphaPassword<const N: usize>(pub(crate) Password<N>);

impl<const N: usize> Password<N> {
    /// The password's characters (ghost view).
    pub closed spec fn chars(&self) -> Seq<char> {
        self.0.raw()@
    }

    /// Wrap the given characters as a password.
    pub fn new(password: [char; N]) -> (r: Self)
        ensures
            r.chars() == password@,
    {
        Password(Protected::new(password))
    }

    /// The password as an ordinary string. Once this happens the wipe
    /// guarantee no longer covers it, so only do this as a final step
    /// where the password is needed.
    pub fn into_unprotected_string(self) -> (r: String)
        ensures
            r@ == self.chars(),
    {
        let arr = self.0.inner();
        let mut out = String::new();
        let mut i: usize = 0;
        while i < N
            invariant
                i <= N,
                arr@ == self.chars(),
                out@ == self.chars().subrange(0, i as int),
            decreases N - i,
        {
            string_push(&mut out, arr[i]);
            proof {
                assert(out@ =~= self.chars().subrange(0, i + 1));
            }
            i = i + 1;
        }
        proof {
            assert(self.chars().subrange(0, N as int) =~= self.chars());
        }
        out
    }

    /// The password as a protected string.
    pub fn into_protected_string(self) -> (r: Protected<String>)
        ensures
            r.raw()@ == self.chars(),
    {
        Protected::new(self.into_unprotected_string())
    }

    /// Draw a password of `N` characters uniformly from the first `k`
    /// characters of the table (crate-internal worker).
    fn generate_from_prefix(rng: &mut SafeRand, k: u32) -> (r: Result<Self, RandomError>)
        requires
            1 <= k <= 94,
        ensures
            r matches Ok(p) ==> p.chars().len() == N && forall|i: int|
                0 <= i < N ==> from_table_prefix(#[trigger] p.chars()[i], k as int),
    {
        let table = standard_chars();
        let mut password: [char; N] = ['\0';N];
        let mut i: usize = 0;
        while i < N
            invariant
                i <= N,
                1 <= k <= 94,
                table@ == spec_standard_chars(),
                forall|j: int|
                    0 <= j < i ==> from_table_prefix(#[trigger] password@[j], k as int),
            decreases N - i,
        {
            let c = rng.next_bounded_u32(k - 1);
            password[i] = table[c as usize];
            i = i + 1;
        }
        Ok(Password(Protected::new(password)))
    }

    /// Draw a password of `N` characters from the full table.
    pub fn generate(rng: &mut SafeRand) -> (r: Result<Self, RandomError>)
        ensures
            r matches Ok(p) ==> p.chars().len() == N && forall|i: int|
                0 <= i < N ==> from_table_prefix(#[trigger] p.chars()[i], 94),
    {
        Self::generate_from_prefix(rng, 94)
    }
}

impl<const N: usize> AlphaNumericPassword<N> {
    /// The password's characters (ghost view).
    pub closed spec fn chars(&self) -> Seq<char> {
        self.0.chars()
    }

    /// Draw a password of `N` letters and digits.
    pub fn generate(rng: &mut SafeRand) -> (r: Result<Self, RandomError>)
        ensures
            r matches Ok(p) ==> p.chars().len() == N && forall|i: int|
                0 <= i < N ==> from_table_prefix(#[trigger] p.chars()[i], 62),
    {
        match Password::generate_from_prefix(rng, 62) {
            Ok(p) => Ok(AlphaNumericPassword(p)),
            Err(e) => Err(e),
        }
    }

    /// The password as an ordinary string; the wipe guarantee no longer
    /// covers it afterwards.
    pub fn into_unprotected_string(self) -> (r: String)
        ensures
            r@ == self.chars(),
    {
        self.0.into_unprotected_string()
    }

    /// The password as a protected string.
    pub fn into_protected_string(self) -> (r: Protected<String>)
        ensures
            r.raw()@ == self.chars(),
    {
        self.0.into_protected_string()
    }
}

impl<const N: usize> AlphaPassword<N> {
    /// The password's characters (ghost view).
    pub closed spec fn chars(&self) -> Seq<char> {
        self.0.chars()
    }

    /// Draw a password of `N` letters.
    pub fn generate(rng: &mut SafeRand) -> (r: Result<Self, RandomError>)
        ensures
            r matches Ok(p) ==> p.chars().len() == N && forall|i: int|
                0 <= i < N ==> from_table_prefix(#[trigger] p.chars()[i], 52),
    {
        match Password::generate_from_prefix(rng, 52) {
            Ok(p) => Ok(AlphaPassword(p)),
            Err(e) => Err(e),
        }
    }

    /// The password as an ordinary string; the wipe guarantee no longer
    /// covers it afterwards.
    pub fn into_unprotected_string(self) -> (r: String)
        ensures
            r@ == self.chars(),
    {
        self.0.into_unprotected_string()
    }

    /// The password as a protected string.
    pub fn into_protected_string(self) -> (r: Protected<String>)
        ensures
            r.raw()@ == self.chars(),
    {
        self.0.into_protected_string()
    }
}

} // verus!
