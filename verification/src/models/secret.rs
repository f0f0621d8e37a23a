use vstd::prelude::*;
use crate::config::PasswordOptions;

verus! {

/// Draws one secret with `passwords::PasswordGenerator::generate_one`, set up
/// from the policy, with the crate's strict mode on or off as `every_class`
/// says. Claimed: the crate gives a secret exactly when the policy has a
/// character, switches on at least one class and, in strict mode, has room
/// for one character of each; the secret then has the policy's length and
/// holds admitted characters only, and in strict mode one of every class that
/// is on, for the crate draws again until that is so. Which secret comes back
/// is left open. The crate aborts where the system has no random bytes to
/// give.
#[verifier::external_body]
pub(crate) fn generate_one(options: &PasswordOptions, every_class: bool) -> (r: Option<String>)
    ensures
        r is Some <==> options.can_generate_with(every_class),
        r matches Some(secret) ==> options.composes(secret@) && (every_class ==> options.covers(
            secret@,
        )),
{
    let generator = passwords::PasswordGenerator::new()
        .length(options.length as usize)
        .numbers(options.use_numbers)
        .lowercase_letters(options.use_lowercase)
        .uppercase_letters(options.use_uppercase)
        .symbols(options.use_symbols)
        .spaces(options.use_spaces)
        .exclude_similar_characters(options.exclude_similar_characters)
        .strict(every_class);
    generator.generate_one().ok()
}

} // verus!
