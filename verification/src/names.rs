//! Predicates on the text of an identifier.
//!
//! A binding is a candidate for a component when its name begins with an
//! uppercase letter, possibly after one leading underscore, and a candidate for
//! a hook when its name begins with `use`.

use vstd::prelude::*;
use vstd::string::StrSliceExecFns;

verus! {

/// Why an identifier could not be inspected.
#[derive(Debug, Clone, Copy, PartialEq, Eq, Structural)]
pub enum NameError {
    /// The identifier has no characters.
    Empty,
    /// The identifier is the single character `_`: the rule asks for the
    /// character after the underscore, and there is none.
    LoneUnderscore,
}

/// Whether a character has the Unicode property `Uppercase`, as
/// `char::is_uppercase` reports it.
pub uninterp spec fn char_is_uppercase(c: char) -> bool;

/// `char::is_uppercase` of the standard library, which tells whether a
/// character has the Unicode property `Uppercase`. The contract claims two
/// things of it. The answer depends on the character alone; it is given the
/// name [`char_is_uppercase`]. And of the ASCII characters, those with the
/// property are the letters `A` to `Z` and no others. Of a character beyond
/// ASCII nothing more than the name is claimed.
pub assume_specification[ char::is_uppercase ](c: char) -> (r: bool)
    ensures
        r == char_is_uppercase(c),
        c <= '\x7f' ==> r == ('A' <= c && c <= 'Z'),
;

/// Whether a character is uppercase, as the rules on names use the word.
/// Among the ASCII characters these are the letters `A` to `Z`; beyond them
/// it is what [`char_is_uppercase`] says.
pub open spec fn is_uppercase(c: char) -> bool {
    if c <= '\x7f' {
        'A' <= c && c <= 'Z'
    } else {
        char_is_uppercase(c)
    }
}

/// The prefix that marks a hook.
pub open spec fn hook_prefix() -> Seq<char> {
    seq!['u', 's', 'e']
}

/// The component rule on the leading characters of a name: the first one is
/// uppercase, or it is an underscore and the one after it is uppercase.
pub open spec fn leading_chars_match(
    first_is_upper: bool,
    first_is_underscore: bool,
    second_is_upper: bool,
) -> bool {
    first_is_upper || (first_is_underscore && second_is_upper)
}

/// The names that can be inspected: every name but the empty one and `_`.
pub open spec fn inspect_error(name: Seq<char>) -> Option<NameError> {
    if name.len() == 0 {
        Some(NameError::Empty)
    } else if name.len() == 1 && name[0] == '_' {
        Some(NameError::LoneUnderscore)
    } else {
        None
    }
}

/// The component rule on a whole name. Meaningful where `inspect_error` is
/// `None`.
pub open spec fn is_component_name(name: Seq<char>) -> bool {
    &&& name.len() > 0
    &&& leading_chars_match(
        is_uppercase(name[0]),
        name[0] == '_',
        name.len() > 1 && is_uppercase(name[1]),
    )
}

/// The hook rule on a whole name: it starts with `use`, letter for letter.
pub open spec fn is_hook_name(name: Seq<char>) -> bool {
    hook_prefix().is_prefix_of(name)
}

/// Decides the component rule from what is known of the first two characters.
pub fn leading_chars_match_component(
    first_is_upper: bool,
    first_is_underscore: bool,
    second_is_upper: bool,
) -> (r: bool)
    ensures
        r == leading_chars_match(first_is_upper, first_is_underscore, second_is_upper),
{
    first_is_upper || (first_is_underscore && second_is_upper)
}

/// Whether `name` is the name of a component candidate.
///
/// The empty name and the name `_` cannot be inspected and are reported as
/// errors.
pub fn matches_component_name(name: &str) -> (r: Result<bool, NameError>)
    ensures
        match inspect_error(name@) {
            Some(e) => r == Err::<bool, NameError>(e),
            None => r == Ok::<bool, NameError>(is_component_name(name@)),
        },
{
    let len: usize = name.unicode_len();
    if len == 0 {
        return Err(NameError::Empty);
    }
    let first: char = name.get_char(0);
    if len == 1 {
        if first == '_' {
            return Err(NameError::LoneUnderscore);
        }
        return Ok(leading_chars_match_component(first.is_uppercase(), false, false));
    }
    let second: char = name.get_char(1);
    Ok(leading_chars_match_component(
        first.is_uppercase(),
        first == '_',
        second.is_uppercase(),
    ))
}

/// Whether `name` is the name of a hook candidate.
pub fn matches_hook_name(name: &str) -> (r: bool)
    ensures
        r == is_hook_name(name@),
{
    let len: usize = name.unicode_len();
    if len < 3 {
        return false;
    }
    name.get_char(0) == 'u' && name.get_char(1) == 's' && name.get_char(2) == 'e'
}

/// A hook name is never one of the two names that cannot be inspected.
pub proof fn lemma_hook_names_can_be_inspected(name: Seq<char>)
    requires
        is_hook_name(name),
    ensures
        inspect_error(name) is None,
{
}

/// No name passes both rules: a hook name begins with the letter `u`, which
/// is neither uppercase nor an underscore.
pub proof fn lemma_hook_names_are_not_component_names(name: Seq<char>)
    requires
        is_hook_name(name),
    ensures
        !is_component_name(name),
{
    let p = hook_prefix();
    assert(name.subrange(0, p.len() as int)[0] == name[0]);
}

} // verus!
