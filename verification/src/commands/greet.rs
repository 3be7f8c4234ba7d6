//! The greeting command.

use crate::error::{AppError, ErrorModel};
use vstd::prelude::*;
use vstd::string::*;

verus! {

/// The greeting for `name`.
pub open spec fn greeting(name: Seq<char>) -> Seq<char> {
    "Hello, "@ + name + "! Welcome to your Tauri app."@
}

/// What the command answers for `name`: the greeting, or a validation
/// error for the empty name.
pub open spec fn greet_outcome(name: Seq<char>) -> Result<Seq<char>, ErrorModel> {
    if name.len() == 0 {
        Err(ErrorModel::Validation("Name cannot be empty"@))
    } else {
        Ok(greeting(name))
    }
}

/// `part` stands in `text` from position `at` on.
pub open spec fn occurs_at(text: Seq<char>, part: Seq<char>, at: int) -> bool {
    0 <= at && at + part.len() <= text.len() && text.subrange(at, at + part.len()) == part
}

/// `part` stands somewhere in `text`.
pub open spec fn contains_text(text: Seq<char>, part: Seq<char>) -> bool {
    exists|at: int| occurs_at(text, part, at)
}

/// The greeting for a name holds that name.
pub proof fn lemma_greeting_contains_name(name: Seq<char>)
    ensures
        contains_text(greeting(name), name),
{
    let at = "Hello, "@.len() as int;
    assert(greeting(name).subrange(at, at + name.len()) =~= name);
    assert(occurs_at(greeting(name), name, at));
}

/// Returns a greeting message for the given name, or a validation error
/// if `name` is empty.
pub fn greet(name: &str) -> (result: Result<String, AppError>)
    ensures
        match result {
            Ok(text) => greet_outcome(name@) == Ok::<Seq<char>, ErrorModel>(text@),
            Err(e) => greet_outcome(name@) == Err::<Seq<char>, ErrorModel>(e@),
        },
        name@.len() > 0 ==> result is Ok && contains_text(result->Ok_0@, name@),
        name@.len() == 0 ==> result is Err && result->Err_0 is Validation,
{
    if name.is_empty() {
        return Err(AppError::Validation(String::from_str("Name cannot be empty")));
    }
    let mut text = String::from_str("Hello, ");
    text.append(name);
    text.append("! Welcome to your Tauri app.");
    proof {
        lemma_greeting_contains_name(name@);
    }
    Ok(text)
}

} // verus!
