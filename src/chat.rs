//! Text handling for a chat front end: reading bot commands, and escaping
//! text for Telegram's MarkdownV2.
use vstd::prelude::*;
use crate::status::{DeliveryStatus, InfoView};
use crate::text::{is_white, join2, join3, trim_start, trim_start_text};

verus! {

/// The first position at or after `i` that holds white space (where `white`)
/// or else the character `c`.
pub open spec fn first_from(s: Seq<char>, i: int, white: bool, c: char) -> Option<int>
    decreases s.len() - i,
{
    if i < 0 || i >= s.len() {
        None
    } else if (white && is_white(s[i])) || (!white && s[i] == c) {
        Some(i)
    } else {
        first_from(s, i + 1, white, c)
    }
}

/// `s` split around its first white-space character: the text before it and
/// the text after it.
pub open spec fn split_at_white(s: Seq<char>) -> Option<(Seq<char>, Seq<char>)> {
    match first_from(s, 0, true, ' ') {
        Some(i) => Some((s.subrange(0, i), s.subrange(i + 1, s.len() as int))),
        None => None,
    }
}

/// `s` split around its first `@`.
pub open spec fn split_at_mention(s: Seq<char>) -> Option<(Seq<char>, Seq<char>)> {
    match first_from(s, 0, false, '@') {
        Some(i) => Some((s.subrange(0, i), s.subrange(i + 1, s.len() as int))),
        None => None,
    }
}

/// Whether `c` is white space.
pub fn is_white_char(c: char) -> (r: bool)
    ensures
        r == is_white(c),
{
    let u = c as u32;
    (0x9 <= u && u <= 0xd) || u == 0x20 || u == 0x85 || u == 0xa0 || u == 0x1680 || (0x2000 <= u
        && u <= 0x200a) || u == 0x2028 || u == 0x2029 || u == 0x202f || u == 0x205f || u == 0x3000
}

/// The first position of a white-space character (`white`) or of `c` in `s`.
fn find_first(s: &str, white: bool, c: char) -> (r: Option<usize>)
    ensures
        match r {
            Some(i) => first_from(s@, 0, white, c) == Some(i as int),
            None => first_from(s@, 0, white, c) is None,
        },
{
    let n = s.unicode_len();
    let mut i: usize = 0;
    while i < n
        invariant
            n == s@.len(),
            i <= n,
            first_from(s@, 0, white, c) == first_from(s@, i as int, white, c),
        decreases n - i,
    {
        let d = s.get_char(i);
        if (white && is_white_char(d)) || (!white && d == c) {
            return Some(i);
        }
        i = i + 1;
    }
    None
}

/// `s` split around the first white-space character (`white`) or `c`.
fn split_around(s: &str, white: bool, c: char) -> (r: Option<(String, String)>)
    ensures
        match r {
            Some((a, b)) => first_from(s@, 0, white, c) matches Some(i) && a@ == s@.subrange(0, i)
                && b@ == s@.subrange(i + 1, s@.len() as int),
            None => first_from(s@, 0, white, c) is None,
        },
{
    match find_first(s, white, c) {
        None => None,
        Some(i) => {
            let n = s.unicode_len();
            proof {
                lemma_first_from_bounds(s@, 0, white, c);
            }
            let head = s.substring_char(0, i);
            let tail = s.substring_char(i + 1, n);
            Some((head.to_string(), tail.to_string()))
        },
    }
}

proof fn lemma_first_from_bounds(s: Seq<char>, i: int, white: bool, c: char)
    ensures
        first_from(s, i, white, c) matches Some(k) ==> i <= k < s.len(),
    decreases s.len() - i,
{
    if 0 <= i < s.len() && !((white && is_white(s[i])) || (!white && s[i] == c)) {
        lemma_first_from_bounds(s, i + 1, white, c);
    }
}

/// A bot command: `/label@username` and what follows it.
pub struct Command {
    pub label: String,
    pub username: Option<String>,
    pub rest: String,
}

/// The arguments of a command, taken one word at a time.
pub struct Args {
    inner: String,
}

/// The label, the addressed bot's name and the rest of a command line.
pub open spec fn command_parts(line: Seq<char>) -> (Seq<char>, Option<Seq<char>>, Seq<char>) {
    let (head, rest) = match split_at_white(line) {
        Some((head, rest)) => (head, rest),
        None => (line, Seq::empty()),
    };
    match split_at_mention(head) {
        Some((label, user)) => (label, Some(user), rest),
        None => (head, None, rest),
    }
}

/// What taking one argument from `inner` gives, and what is left.
pub open spec fn next_arg(inner: Seq<char>) -> (Option<Seq<char>>, Seq<char>) {
    let line = trim_start(inner);
    if line.len() == 0 {
        (None, inner)
    } else {
        match split_at_white(line) {
            Some((word, rest)) => (Some(word), rest),
            None => (Some(line), Seq::empty()),
        }
    }
}

impl Command {
    pub open spec fn rest(&self) -> Seq<char> {
        self.rest@
    }

    /// Reads a command line: the label runs to the first white space, and
    /// may name the bot it addresses after an `@`.
    pub fn new(line: &str) -> (r: Command)
        ensures
            (r.label@, crate::json::opt_view(r.username), r.rest()) == command_parts(line@),
    {
        let (head, rest) = match split_around(line, true, ' ') {
            Some((head, rest)) => (head, rest),
            None => (line.to_string(), String::new()),
        };
        match split_around(head.as_str(), false, '@') {
            Some((label, user)) => Command { label, username: Some(user), rest },
            None => Command { label: head, username: None, rest },
        }
    }

    /// The command's arguments.
    pub fn args(&self) -> (r: Args)
        ensures
            r.rest() == self.rest(),
    {
        Args { inner: self.rest.clone() }
    }
}

impl Args {
    pub closed spec fn rest(&self) -> Seq<char> {
        self.inner@
    }

    /// The next argument: the next run of text up to white space.
    pub fn next(&mut self) -> (r: Option<String>)
        ensures
            (crate::json::opt_view(r), final(self).rest()) == next_arg(old(self).rest()),
    {
        let line = trim_start_text(self.inner.as_str());
        if line.as_str().is_empty() {
            return None;
        }
        match split_around(line.as_str(), true, ' ') {
            Some((word, rest)) => {
                self.inner = rest;
                Some(word)
            },
            None => {
                self.inner = String::new();
                Some(line)
            },
        }
    }
}

/// Characters that MarkdownV2 reserves.
pub open spec fn reserved(c: char) -> bool {
    c == '_' || c == '*' || c == '[' || c == ']' || c == '(' || c == ')' || c == '~' || c == '`'
        || c == '>' || c == '#' || c == '+' || c == '-' || c == '=' || c == '|' || c == '{' || c
        == '}' || c == '.' || c == '!'
}

/// `s` with a backslash before each reserved character.
pub open spec fn escaped(s: Seq<char>) -> Seq<char>
    decreases s.len(),
{
    if s.len() == 0 {
        s
    } else {
        escaped(s.drop_last()) + if reserved(s.last()) {
            seq!['\\', s.last()]
        } else {
            seq![s.last()]
        }
    }
}

/// Escapes `input` for Telegram's MarkdownV2.
pub fn escape(input: &str) -> (r: String)
    ensures
        r@ == escaped(input@),
{
    let n = input.unicode_len();
    let mut out = String::new();
    let mut i: usize = 0;
    while i < n
        invariant
            n == input@.len(),
            i <= n,
            out@ == escaped(input@.subrange(0, i as int)),
        decreases n - i,
    {
        let c = input.get_char(i);
        let reserved_char = c == '_' || c == '*' || c == '[' || c == ']' || c == '(' || c == ')'
            || c == '~' || c == '`' || c == '>' || c == '#' || c == '+' || c == '-' || c == '='
            || c == '|' || c == '{' || c == '}' || c == '.' || c == '!';
        let piece = input.substring_char(i, i + 1);
        proof {
            let next = input@.subrange(0, i + 1);
            assert(next.drop_last() =~= input@.subrange(0, i as int));
            assert(next.last() == c);
            assert(piece@ =~= seq![c]);
        }
        if reserved_char {
            out.append("\\");
            proof {
                reveal_strlit("\\");
            }
        }
        out.append(piece);
        proof {
            let next = input@.subrange(0, i + 1);
            assert(out@ =~= escaped(next));
        }
        i = i + 1;
    }
    proof {
        assert(input@.subrange(0, n as int) =~= input@);
    }
    out
}

/// A party's name, or a note that the courier does not give it.
pub open spec fn party_or_unknown(p: Option<Seq<char>>) -> Seq<char> {
    match p {
        Some(name) => name,
        None => "정보 없음"@,
    }
}

/// The header of a tracking message: courier and number, then sender,
/// receiver and product, each escaped.
pub open spec fn info_header(info: InfoView) -> Seq<char> {
    "📦 *"@ + info.name + "* "@ + info.tracking_number + "\n"@ + escaped(party_or_unknown(info.sender))
        + " ▶️ "@ + escaped(party_or_unknown(info.receiver)) + match info.product {
        Some(p) => escaped(" ("@ + p + ")"@),
        None => Seq::empty(),
    }
}

fn party_text(p: &Option<String>) -> (r: String)
    ensures
        r@ == escaped(party_or_unknown(crate::json::opt_view(*p))),
{
    match p {
        Some(name) => escape(name.as_str()),
        None => escape("정보 없음"),
    }
}

/// The header of a tracking message for `info`.
pub fn create_info_header_message(info: &DeliveryStatus) -> (r: String)
    ensures
        r@ == info_header(info@),
{
    let head = join3("📦 *", info.name.as_str(), "* ");
    let head = join3(head.as_str(), info.tracking_number.as_str(), "\n");
    let sender = party_text(&info.sender);
    let receiver = party_text(&info.receiver);
    let line = join3(head.as_str(), sender.as_str(), " ▶️ ");
    let line = join2(line.as_str(), receiver.as_str());
    let product = match &info.product {
        Some(p) => {
            let text = join3(" (", p.as_str(), ")");
            escape(text.as_str())
        },
        None => String::new(),
    };
    join2(line.as_str(), product.as_str())
}

} // verus!
