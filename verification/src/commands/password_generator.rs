//! Generating a password.

use vstd::prelude::*;
use vstd::string::StrSliceExecFns;
use crate::text::text_of_chars;

verus! {

/// The lowercase letters.
pub const LOWERCASE: &'static str = "abcdefghijklmnopqrstuvwxyz";

/// The uppercase letters.
pub const UPPERCASE: &'static str = "ABCDEFGHIJKLMNOPQRSTUVWXYZ";

/// The digits.
pub const NUMBERS: &'static str = "0123456789";

/// The symbols.
pub const SYMBOLS: &'static str = "!@#$%^&*()-_=+[]{};:,.<>?";

/// Length of a password where none is asked for.
pub const DEFAULT_LENGTH: usize = 16;

/// The characters that one choice adds: 0 for lowercase letters, 1 for
/// uppercase letters, 2 for digits, 3 for symbols, nothing for any other
/// number.
pub open spec fn choice_chars(choice: usize) -> Seq<char> {
    if choice == 0 {
        LOWERCASE@
    } else if choice == 1 {
        UPPERCASE@
    } else if choice == 2 {
        NUMBERS@
    } else if choice == 3 {
        SYMBOLS@
    } else {
        Seq::empty()
    }
}

/// The characters that the choices add, one after another.
pub open spec fn chosen_chars(selections: Seq<usize>) -> Seq<char>
    decreases selections.len(),
{
    if selections.len() == 0 {
        Seq::empty()
    } else {
        chosen_chars(selections.drop_last()) + choice_chars(selections.last())
    }
}

/// The characters that a password is drawn from: all four kinds where
/// nothing was chosen, the chosen kinds otherwise.
pub open spec fn charset_of(selections: Seq<usize>) -> Seq<char> {
    if selections.len() == 0 {
        LOWERCASE@ + UPPERCASE@ + NUMBERS@ + SYMBOLS@
    } else {
        chosen_chars(selections)
    }
}

/// Calls `rand::thread_rng` and `Rng::gen_range` on `0..bound`.
///
/// Trusted: the number drawn is below `bound`. The call panics on an empty
/// range, which `requires` leaves out.
#[verifier::external_body]
fn random_below(bound: usize) -> (r: usize)
    requires
        bound > 0,
    ensures
        r < bound,
{
    rand::Rng::gen_range(&mut rand::thread_rng(), 0..bound)
}

fn push_chars(charset: &mut Vec<char>, chars: &str)
    ensures
        final(charset)@ == old(charset)@ + chars@,
{
    let ghost before = charset@;
    let count = chars.unicode_len();
    let mut i: usize = 0;
    while i < count
        invariant
            i <= count,
            count == chars@.len(),
            charset@ == before + chars@.take(i as int),
        decreases count - i,
    {
        charset.push(chars.get_char(i));
        assert(chars@.take(i + 1) == chars@.take(i as int).push(chars@[i as int]));
        i = i + 1;
    }
    assert(chars@.take(i as int) == chars@);
}

/// The characters that a password is drawn from.
pub fn charset(selections: &Vec<usize>) -> (r: Vec<char>)
    ensures
        r@ == charset_of(selections@),
{
    let mut charset: Vec<char> = Vec::new();
    if selections.len() == 0 {
        push_chars(&mut charset, LOWERCASE);
        push_chars(&mut charset, UPPERCASE);
        push_chars(&mut charset, NUMBERS);
        push_chars(&mut charset, SYMBOLS);
        return charset;
    }
    let mut i: usize = 0;
    assert(selections@.take(0) == Seq::<usize>::empty());
    while i < selections.len()
        invariant
            i <= selections.len(),
            charset@ == chosen_chars(selections@.take(i as int)),
        decreases selections.len() - i,
    {
        let choice = selections[i];
        proof {
            let upto = selections@.take(i + 1);
            assert(upto.drop_last() == selections@.take(i as int));
            assert(upto.last() == choice);
        }
        if choice == 0 {
            push_chars(&mut charset, LOWERCASE);
        } else if choice == 1 {
            push_chars(&mut charset, UPPERCASE);
        } else if choice == 2 {
            push_chars(&mut charset, NUMBERS);
        } else if choice == 3 {
            push_chars(&mut charset, SYMBOLS);
        } else {
            assert(charset@ + Seq::<char>::empty() == charset@);
        }
        i = i + 1;
    }
    assert(selections@.take(i as int) == selections@);
    charset
}

/// The characters of `charset` at the places that `indices` name.
pub open spec fn picked(charset: Seq<char>, indices: Seq<usize>) -> Seq<char> {
    Seq::new(indices.len(), |i: int| charset[indices[i] as int])
}

/// Whether every index names a place of the character set.
pub open spec fn in_range(charset: Seq<char>, indices: Seq<usize>) -> bool {
    forall|i: int| 0 <= i < indices.len() ==> (#[trigger] indices[i]) < charset.len()
}

/// The password made of the characters at the places drawn. `None`
/// exactly when an index names no place of the character set.
pub fn password_of(charset: &Vec<char>, indices: &Vec<usize>) -> (r: Option<String>)
    ensures
        r is Some <==> in_range(charset@, indices@),
        r matches Some(password) ==> password@ == picked(charset@, indices@),
{
    let mut password: Vec<char> = Vec::new();
    let mut i: usize = 0;
    while i < indices.len()
        invariant
            i <= indices.len(),
            password@.len() == i,
            forall|j: int| 0 <= j < i ==> (#[trigger] indices@[j]) < charset@.len(),
            forall|j: int| 0 <= j < i ==> #[trigger] password@[j] == charset@[indices@[j] as int],
        decreases indices.len() - i,
    {
        if indices[i] >= charset.len() {
            return None;
        }
        password.push(charset[indices[i]]);
        i = i + 1;
    }
    assert(password@ =~= picked(charset@, indices@));
    Some(text_of_chars(&password))
}

/// A password of `length` characters, each drawn at random from the
/// characters that the choices allow. `None` exactly when they allow
/// none.
pub fn generate_password(length: usize, selections: &Vec<usize>) -> (r: Option<String>)
    ensures
        r is Some <==> charset_of(selections@).len() > 0,
        r matches Some(password) ==> password@.len() == length && forall|i: int|
            0 <= i < length ==> charset_of(selections@).contains(#[trigger] password@[i]),
{
    let charset = charset(selections);
    if charset.len() == 0 {
        return None;
    }
    let mut indices: Vec<usize> = Vec::new();
    let mut i: usize = 0;
    while i < length
        invariant
            i <= length,
            charset@.len() > 0,
            indices@.len() == i,
            in_range(charset@, indices@),
        decreases length - i,
    {
        indices.push(random_below(charset.len()));
        i = i + 1;
    }
    password_of(&charset, &indices)
}

} // verus!
