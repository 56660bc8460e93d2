//! The three commands that the front-end can invoke.

use vstd::prelude::*;

verus! {

/// What every greeting starts with.
pub open spec fn greeting_prefix() -> Seq<char> {
    "Hello, "@
}

/// The encouragement that every greeting ends with.
pub open spec fn greeting_suffix() -> Seq<char> {
    "! You've got this!"@
}

/// The greeting for `name`: the prefix, the name untouched, the suffix.
pub open spec fn greeting(name: Seq<char>) -> Seq<char> {
    greeting_prefix() + name + greeting_suffix()
}

/// The message that a save reports.
pub open spec fn save_confirmation() -> Seq<char> {
    "Data saved successfully"@
}

/// The message that a load reports.
pub open spec fn load_confirmation() -> Seq<char> {
    "Data loaded successfully"@
}

/// Greets `name`. Any string is accepted and none is altered or validated.
pub fn greet(name: &str) -> (out: String)
    ensures
        out@ == greeting(name@),
{
    let mut out = String::from_str("Hello, ");
    out.append(name);
    out.append("! You've got this!");
    out
}

/// Acknowledges a save request. The payload is neither inspected nor stored:
/// persistence is the front-end's business, so every payload succeeds.
#[allow(unused_variables)]
pub fn save_story_data(data: String) -> (res: Result<String, String>)
    ensures
        res is Ok,
        res->Ok_0@ == save_confirmation(),
{
    Ok(String::from_str("Data saved successfully"))
}

/// Acknowledges a load request. Nothing is retrieved; the call always succeeds.
pub fn load_story_data() -> (res: Result<String, String>)
    ensures
        res is Ok,
        res->Ok_0@ == load_confirmation(),
{
    Ok(String::from_str("Data loaded successfully"))
}

/// A greeting is the prefix, then the name exactly as given, then the suffix,
/// and nothing else.
pub proof fn lemma_greeting_frames_name(name: Seq<char>)
    ensures
        greeting(name).len() == greeting_prefix().len() + name.len() + greeting_suffix().len(),
        greeting(name).subrange(0, greeting_prefix().len() as int) == greeting_prefix(),
        greeting(name).subrange(
            greeting_prefix().len() as int,
            (greeting_prefix().len() + name.len()) as int,
        ) == name,
        greeting(name).subrange(
            (greeting_prefix().len() + name.len()) as int,
            greeting(name).len() as int,
        ) == greeting_suffix(),
{
    let p = greeting_prefix();
    let s = greeting_suffix();
    let g = greeting(name);
    assert(g.subrange(0, p.len() as int) =~= p);
    assert(g.subrange(p.len() as int, (p.len() + name.len()) as int) =~= name);
    assert(g.subrange((p.len() + name.len()) as int, g.len() as int) =~= s);
}

/// The fixed parts of a greeting have the lengths of their literals, so a
/// greeting is exactly twenty-five characters longer than the name.
pub proof fn lemma_greeting_len(name: Seq<char>)
    ensures
        greeting_prefix().len() == 7,
        greeting_suffix().len() == 18,
        greeting(name).len() == name.len() + 25,
{
    reveal_strlit("Hello, ");
    reveal_strlit("! You've got this!");
}

/// Equal names get equal greetings, and different names different ones.
pub proof fn lemma_greeting_determined_by_name(a: Seq<char>, b: Seq<char>)
    ensures
        greeting(a) == greeting(b) <==> a == b,
{
    if greeting(a) == greeting(b) {
        lemma_greeting_frames_name(a);
        lemma_greeting_frames_name(b);
        assert(a.len() == b.len());
        assert(a == b);
    }
}

} // verus!
