use vstd::prelude::*;

use crate::text::{
    char_is_control, char_is_whitespace, chars_of, decimal, is_control, is_whitespace, push_all,
    push_char, push_decimal,
};

verus! {

/// The zero-width space that breaks Discord's markup without showing.
pub const ZERO_WIDTH_SPACE: char = '\u{200b}';

/// Whether Discord would read the character as markup that must be escaped.
pub open spec fn needs_backslash(c: char) -> bool {
    c == '_' || c == '*' || c == '~' || c == ':' || c == '\\'
}

/// What one character of a name becomes, given the character before it (`'\0'`
/// at the start): markup characters get a backslash, a `(` right after `]` gets
/// a zero-width space in front (so no link forms), whitespace becomes a plain
/// space, other control characters are dropped, and `#` and `@` are followed by
/// a zero-width space (so no mention or channel link forms).
pub open spec fn escape_piece(c: char, last: char) -> Seq<char> {
    let head = if needs_backslash(c) {
        seq!['\\', c]
    } else if c == '(' && last == ']' {
        seq![ZERO_WIDTH_SPACE, '(']
    } else if char_is_whitespace(c) {
        seq![' ']
    } else if !char_is_control(c) {
        seq![c]
    } else {
        Seq::empty()
    };
    if c == '#' || c == '@' {
        head.push(ZERO_WIDTH_SPACE)
    } else {
        head
    }
}

/// The escaped form of the first `n` characters of `s`.
pub open spec fn escape_prefix(s: Seq<char>, n: nat) -> Seq<char>
    decreases n,
{
    if n == 0 || n > s.len() {
        Seq::empty()
    } else {
        let last = if n == 1 {
            '\0'
        } else {
            s[n - 2]
        };
        escape_prefix(s, (n - 1) as nat) + escape_piece(s[n - 1], last)
    }
}

/// Makes a user-chosen text safe to show in a Discord message.
pub fn escape_discord(x: &str) -> (out: String)
    ensures
        out@ == escape_prefix(x@, x@.len()),
{
    let cs = chars_of(x);
    let n = cs.len();
    let mut out = String::new();
    let mut last = '\0';
    let mut k: usize = 0;
    while k < n
        invariant
            k <= n,
            n == cs@.len(),
            cs@ == x@,
            out@ == escape_prefix(cs@, k as nat),
            last == (if k == 0 {
                '\0'
            } else {
                cs@[k - 1]
            }),
        decreases n - k,
    {
        let c = cs[k];
        let ghost before = out@;
        if c == '_' || c == '*' || c == '~' || c == ':' || c == '\\' {
            push_char(&mut out, '\\');
            push_char(&mut out, c);
        } else if c == '(' && last == ']' {
            push_char(&mut out, ZERO_WIDTH_SPACE);
            push_char(&mut out, '(');
        } else if is_whitespace(c) {
            push_char(&mut out, ' ');
        } else if !is_control(c) {
            push_char(&mut out, c);
        }
        if c == '#' || c == '@' {
            push_char(&mut out, ZERO_WIDTH_SPACE);
        }
        assert(out@ =~= before + escape_piece(c, last));
        last = c;
        k = k + 1;
    }
    out
}

/// The server emoji that stands for a level's character in announcements,
/// keyed by the character's bit; an unknown bit gives no emoji.
pub open spec fn emoji_name(character_bit: u8) -> Seq<char> {
    if character_bit == 1 {
        "HeadBanki:1360591984267628634"@
    } else if character_bit == 2 {
        "HeadCirno:1360591988747010140"@
    } else if character_bit == 4 {
        "HeadRumia:1360591987283329036"@
    } else if character_bit == 8 {
        "HeadSeija:1360591986146541639"@
    } else {
        ""@
    }
}

/// The emoji of a level's character, as `emoji_name` gives it.
pub fn character_emoji(character_bit: u8) -> (r: &'static str)
    ensures
        r@ == emoji_name(character_bit),
{
    match character_bit {
        1 => "HeadBanki:1360591984267628634",
        2 => "HeadCirno:1360591988747010140",
        4 => "HeadRumia:1360591987283329036",
        8 => "HeadSeija:1360591986146541639",
        _ => "",
    }
}

/// The announcement posted when a level is published.
pub open spec fn announcement(
    emoji: Seq<char>,
    name: Seq<char>,
    code: Seq<char>,
    author: Seq<char>,
    author_id: u64,
) -> Seq<char> {
    "<@&1360562630309314660>\nNew level: <:"@ + emoji + "> **"@ + escape_prefix(name, name.len())
        + "** ("@ + code + ")\nBy: ["@ + escape_prefix(author, author.len())
        + "](<https://steamdb.info/calculator/"@ + decimal(author_id as nat) + "/>)"@
}

/// Composes the announcement of a new level: the character's emoji, the
/// level's name, its share code and the author, names escaped.
pub fn announce_level(
    character_bit: u8,
    name: &str,
    code: &str,
    author: &str,
    author_id: u64,
) -> (out: String)
    ensures
        out@ == announcement(emoji_name(character_bit), name@, code@, author@, author_id),
{
    let emoji = character_emoji(character_bit);
    let mut out = String::new();
    push_all(&mut out, "<@&1360562630309314660>\nNew level: <:");
    push_all(&mut out, emoji);
    push_all(&mut out, "> **");
    let en = escape_discord(name);
    push_all(&mut out, en.as_str());
    push_all(&mut out, "** (");
    push_all(&mut out, code);
    push_all(&mut out, ")\nBy: [");
    let ea = escape_discord(author);
    push_all(&mut out, ea.as_str());
    push_all(&mut out, "](<https://steamdb.info/calculator/");
    push_decimal(&mut out, author_id);
    push_all(&mut out, "/>)");
    assert(out@ =~= announcement(emoji@, name@, code@, author@, author_id));
    out
}

/// Escaping a longer prefix of a name extends the escape of a shorter one.
proof fn lemma_escape_prefix_grows(s: Seq<char>, i: nat, n: nat)
    requires
        i <= n <= s.len(),
    ensures
        escape_prefix(s, i).len() <= escape_prefix(s, n).len(),
        escape_prefix(s, n).take(escape_prefix(s, i).len() as int) == escape_prefix(s, i),
    decreases n - i,
{
    if i < n {
        lemma_escape_prefix_grows(s, i, (n - 1) as nat);
        let a = escape_prefix(s, i);
        let b = escape_prefix(s, (n - 1) as nat);
        let c = escape_prefix(s, n);
        assert(c.take(b.len() as int) =~= b);
        assert(c.take(a.len() as int) =~= b.take(a.len() as int));
    }
}

/// Every Discord markup character of a name (`_`, `*`, `~`, `:`, `\`) comes
/// out preceded by a backslash: where the escape of the characters before it
/// ends, the escaped name holds a backslash and then that character.
pub proof fn law_markup_is_escaped(s: Seq<char>, i: int)
    requires
        0 <= i < s.len(),
        s[i] == '_' || s[i] == '*' || s[i] == '~' || s[i] == ':' || s[i] == '\\',
    ensures
        ({
            let out = escape_prefix(s, s.len());
            let p = escape_prefix(s, i as nat).len() as int;
            p + 1 < out.len() && out[p] == '\\' && out[p + 1] == s[i]
        }),
{
    let n = s.len();
    let k = (i + 1) as nat;
    let last = if k == 1 { '\0' } else { s[k - 2] };
    assert(escape_prefix(s, k) == escape_prefix(s, i as nat) + escape_piece(s[i], last));
    assert(escape_piece(s[i], last) == seq!['\\', s[i]]);
    lemma_escape_prefix_grows(s, k, n);
    let out = escape_prefix(s, n);
    let p = escape_prefix(s, i as nat).len() as int;
    assert(out.take(escape_prefix(s, k).len() as int)[p] == out[p]);
    assert(out.take(escape_prefix(s, k).len() as int)[p + 1] == out[p + 1]);
}

} // verus!
