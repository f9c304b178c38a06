use vstd::prelude::*;

verus! {

/// Decimal digits.
pub const DIGITS: &'static str = "0123456789";

/// Lower case ASCII letters.
pub const LOWER_CASE_ALPHABETS: &'static str = "abcdefghijklmnopqrstuvwxyz";

/// Upper case ASCII letters.
pub const UPPER_CASE_ALPHABETS: &'static str = "ABCDEFGHIJKLMNOPQRSTUVWXYZ";

/// The special symbols a password may hold.
pub const SPECIAL_CHARS: &'static str = "#!&@";

/// Flags to include or exclude characters in otp
#[derive(PartialEq, Eq, Structural)]
pub struct Flags {
    pub digits: bool,
    pub lower_case_alphabets: bool,
    pub upper_case_alphabets: bool,
    pub special_chars: bool,
}

/// The alphabet of one class if its flag is set, else nothing.
pub open spec fn class_if(enabled: bool, alphabet: Seq<char>) -> Seq<char> {
    if enabled {
        alphabet
    } else {
        Seq::empty()
    }
}

impl Flags {
    /// At least one character class is enabled.
    pub open spec fn any_enabled(&self) -> bool {
        self.digits || self.lower_case_alphabets || self.upper_case_alphabets || self.special_chars
    }

    /// The pool of characters a password is drawn from: the alphabets of the
    /// enabled classes, in the order digits, lower case, upper case, special.
    pub open spec fn pool(&self) -> Seq<char> {
        class_if(self.digits, DIGITS@) + class_if(self.lower_case_alphabets, LOWER_CASE_ALPHABETS@)
            + class_if(self.upper_case_alphabets, UPPER_CASE_ALPHABETS@) + class_if(
            self.special_chars,
            SPECIAL_CHARS@,
        )
    }

    /// Include digits, alphabets and special characters
    pub fn new() -> (r: Flags)
        ensures
            r.digits && r.lower_case_alphabets && r.upper_case_alphabets && r.special_chars,
    {
        Flags {
            digits: true,
            lower_case_alphabets: true,
            upper_case_alphabets: true,
            special_chars: true,
        }
    }

    /// The characters allowed by these flags, as one string.
    pub fn allowed_chars(&self) -> (r: String)
        ensures
            r@ == self.pool(),
    {
        let mut allowed_chars = String::new();
        if self.digits {
            allowed_chars.append(DIGITS);
        }
        if self.lower_case_alphabets {
            allowed_chars.append(LOWER_CASE_ALPHABETS);
        }
        if self.upper_case_alphabets {
            allowed_chars.append(UPPER_CASE_ALPHABETS);
        }
        if self.special_chars {
            allowed_chars.append(SPECIAL_CHARS);
        }
        proof {
            assert(allowed_chars@ =~= self.pool());
        }
        allowed_chars
    }
}

impl Default for Flags {
    /// Every class disabled.
    fn default() -> (r: Flags)
        ensures
            !r.digits && !r.lower_case_alphabets && !r.upper_case_alphabets && !r.special_chars,
    {
        Flags {
            digits: false,
            lower_case_alphabets: false,
            upper_case_alphabets: false,
            special_chars: false,
        }
    }
}

/// The pool is empty exactly when no class is enabled: every alphabet holds
/// at least one character, so testing the flags and testing the pool agree.
pub proof fn lemma_pool_empty_iff_none_enabled(flags: Flags)
    ensures
        flags.pool().len() == 0 <==> !flags.any_enabled(),
        flags.pool().len() == 0 <==> flags == (Flags {
            digits: false,
            lower_case_alphabets: false,
            upper_case_alphabets: false,
            special_chars: false,
        }),
{
    reveal_strlit("0123456789");
    reveal_strlit("abcdefghijklmnopqrstuvwxyz");
    reveal_strlit("ABCDEFGHIJKLMNOPQRSTUVWXYZ");
    reveal_strlit("#!&@");
}

/// A character is in the pool exactly when it belongs to the alphabet of an
/// enabled class.
pub proof fn lemma_pool_contains(flags: Flags, c: char)
    ensures
        flags.pool().contains(c) <==> (flags.digits && DIGITS@.contains(c)) || (
        flags.lower_case_alphabets && LOWER_CASE_ALPHABETS@.contains(c)) || (
        flags.upper_case_alphabets && UPPER_CASE_ALPHABETS@.contains(c)) || (flags.special_chars
            && SPECIAL_CHARS@.contains(c)),
{
    let d = class_if(flags.digits, DIGITS@);
    let l = class_if(flags.lower_case_alphabets, LOWER_CASE_ALPHABETS@);
    let u = class_if(flags.upper_case_alphabets, UPPER_CASE_ALPHABETS@);
    let s = class_if(flags.special_chars, SPECIAL_CHARS@);
    assert forall|a: Seq<char>, b: Seq<char>| #[trigger] (a + b).contains(c) <==> a.contains(c)
        || b.contains(c) by {
        if (a + b).contains(c) {
            let i = choose|i: int| 0 <= i < (a + b).len() && (a + b)[i] == c;
            if i >= a.len() {
                assert(b[i - a.len()] == c);
            }
        }
        if a.contains(c) {
            let i = choose|i: int| 0 <= i < a.len() && a[i] == c;
            assert((a + b)[i] == c);
        }
        if b.contains(c) {
            let i = choose|i: int| 0 <= i < b.len() && b[i] == c;
            assert((a + b)[a.len() + i] == c);
        }
    }
    assert(flags.pool() == d + l + u + s);
    assert(!Seq::<char>::empty().contains(c));
}

} // verus!
