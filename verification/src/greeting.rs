//! The greeting that the front end shows for a user's name.

use vstd::prelude::*;

verus! {

/// The greeting for `name`.
pub open spec fn greeting_text(name: Seq<char>) -> Seq<char> {
    "你好, "@ + name + "! 欢迎使用 Tauri!"@
}

/// Greets `name` in the front end's language.
pub fn greet(name: &str) -> (message: String)
    ensures
        message@ == greeting_text(name@),
{
    let mut message = String::from_str("你好, ");
    message.append(name);
    message.append("! 欢迎使用 Tauri!");
    message
}

/// The greeting holds the whole name, unchanged, between the fixed opening
/// "你好, " and the fixed closing "! 欢迎使用 Tauri!", so it is 17 characters
/// longer than the name and different names get different greetings.
pub proof fn lemma_greeting_embeds_name(name: Seq<char>, other: Seq<char>)
    ensures
        greeting_text(name).len() == name.len() + 17,
        greeting_text(name).take(4) == seq!['你', '好', ',', ' '],
        greeting_text(name).subrange(4, 4 + name.len() as int) == name,
        greeting_text(name).skip(4 + name.len() as int) == seq![
            '!', ' ', '欢', '迎', '使', '用', ' ', 'T', 'a', 'u', 'r', 'i', '!',
        ],
        greeting_text(name) == greeting_text(other) ==> name == other,
{
    reveal_strlit("你好, ");
    reveal_strlit("! 欢迎使用 Tauri!");
    let g = greeting_text(name);
    assert(g.take(4) =~= seq!['你', '好', ',', ' ']);
    assert(g.subrange(4, 4 + name.len() as int) =~= name);
    assert(g.skip(4 + name.len() as int) =~= seq![
        '!', ' ', '欢', '迎', '使', '用', ' ', 'T', 'a', 'u', 'r', 'i', '!',
    ]);
    if g == greeting_text(other) {
        let h = greeting_text(other);
        assert(h.subrange(4, 4 + other.len() as int) =~= other);
        assert(name.len() == other.len());
        assert(name =~= other);
    }
}

} // verus!
