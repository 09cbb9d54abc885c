//! The interactive prompt's input: a line is cut into shell-like tokens, and
//! the tokens are read as a command.
//!
//! Tokens. Whitespace (the characters of Unicode's White_Space property)
//! separates tokens. A single or double quote opens a quoted token that runs
//! to the next occurrence of the same quote character; the quotes are not part
//! of the token, which may hold whitespace and may be empty. A quote that is
//! never closed is dropped, and scanning goes on right after it. Any other
//! run of characters that are neither whitespace nor quotes is a token.
//!
//! Commands. `-r` or `--receive` asks to receive; `-s` or `--send` is followed
//! by the words to send, up to the next flag or the end; `--id` is followed by
//! the identity of the peer to address. Each flag may stand once, and receive
//! goes with neither of the others. Any other token, or a flag without its
//! value, makes the line no command; such a line, like one with no flag at
//! all, is sent as it was typed, and an empty line asks to receive.

use crate::text::text_equals;
use vstd::prelude::*;

verus! {

/// Whitespace: the characters of Unicode's White_Space property, the set
/// that `char::is_whitespace` accepts.
pub open spec fn is_blank(c: char) -> bool {
    let n = c as u32;
    (0x09 <= n <= 0x0D) || n == 0x20 || n == 0x85 || n == 0xA0 || n == 0x1680 || (0x2000 <= n
        <= 0x200A) || n == 0x2028 || n == 0x2029 || n == 0x202F || n == 0x205F || n == 0x3000
}

pub open spec fn is_quote(c: char) -> bool {
    c == '\'' || c == '"'
}

/// The first position at or after `i` that holds `c`, or the length of `s`.
pub open spec fn find_from(s: Seq<char>, c: char, i: int) -> int
    decreases s.len() - i,
{
    if i >= s.len() {
        s.len() as int
    } else if s[i] == c {
        i
    } else {
        find_from(s, c, i + 1)
    }
}

/// The end of the unquoted word that starts at `i`.
pub open spec fn word_end(s: Seq<char>, i: int) -> int
    decreases s.len() - i,
{
    if 0 <= i < s.len() && !is_blank(s[i]) && !is_quote(s[i]) {
        word_end(s, i + 1)
    } else {
        i
    }
}

pub proof fn lemma_find_from_bounds(s: Seq<char>, c: char, i: int)
    requires
        0 <= i <= s.len(),
    ensures
        i <= find_from(s, c, i) <= s.len(),
        find_from(s, c, i) < s.len() ==> s[find_from(s, c, i)] == c,
        forall|k: int| i <= k < find_from(s, c, i) ==> s[k] != c,
    decreases s.len() - i,
{
    if i < s.len() && s[i] != c {
        lemma_find_from_bounds(s, c, i + 1);
    }
}

pub proof fn lemma_word_end_bounds(s: Seq<char>, i: int)
    requires
        0 <= i <= s.len(),
    ensures
        i <= word_end(s, i) <= s.len(),
        i < s.len() && !is_blank(s[i]) && !is_quote(s[i]) ==> i < word_end(s, i),
    decreases s.len() - i,
{
    if i < s.len() && !is_blank(s[i]) && !is_quote(s[i]) {
        lemma_word_end_bounds(s, i + 1);
    }
}

/// The tokens of `s` from position `i` on.
pub open spec fn tokens_from(s: Seq<char>, i: int) -> Seq<Seq<char>>
    decreases s.len() - i,
{
    if i < 0 || i >= s.len() {
        Seq::empty()
    } else if is_blank(s[i]) {
        tokens_from(s, i + 1)
    } else if is_quote(s[i]) {
        let j = find_from(s, s[i], i + 1);
        if j < s.len() {
            proof {
                lemma_find_from_bounds(s, s[i], i + 1);
            }
            seq![s.subrange(i + 1, j)] + tokens_from(s, j + 1)
        } else {
            tokens_from(s, i + 1)
        }
    } else {
        let e = word_end(s, i);
        proof {
            lemma_word_end_bounds(s, i);
        }
        seq![s.subrange(i, e)] + tokens_from(s, e)
    }
}

/// The tokens of a whole line.
pub open spec fn tokens_of(s: Seq<char>) -> Seq<Seq<char>> {
    tokens_from(s, 0)
}

/// The text of each string in `v`.
pub open spec fn texts(v: Seq<String>) -> Seq<Seq<char>> {
    v.map_values(|t: String| t@)
}

fn is_blank_char(c: char) -> (r: bool)
    ensures
        r == is_blank(c),
{
    let n = c as u32;
    (0x09 <= n && n <= 0x0D) || n == 0x20 || n == 0x85 || n == 0xA0 || n == 0x1680 || (0x2000
        <= n && n <= 0x200A) || n == 0x2028 || n == 0x2029 || n == 0x202F || n == 0x205F || n
        == 0x3000
}

fn find_char(s: &str, c: char, from: usize) -> (r: usize)
    requires
        from <= s@.len(),
    ensures
        r == find_from(s@, c, from as int),
{
    let n = s.unicode_len();
    let mut j = from;
    while j < n
        invariant
            n == s@.len(),
            from <= j <= n,
            find_from(s@, c, from as int) == find_from(s@, c, j as int),
        decreases n - j,
    {
        if s.get_char(j) == c {
            return j;
        }
        j = j + 1;
    }
    j
}

fn find_word_end(s: &str, from: usize) -> (r: usize)
    requires
        from <= s@.len(),
    ensures
        r == word_end(s@, from as int),
{
    let n = s.unicode_len();
    let mut j = from;
    while j < n
        invariant
            n == s@.len(),
            from <= j <= n,
            word_end(s@, from as int) == word_end(s@, j as int),
        decreases n - j,
    {
        let c = s.get_char(j);
        if is_blank_char(c) || c == '\'' || c == '"' {
            return j;
        }
        j = j + 1;
    }
    j
}

/// Cuts a line into tokens (see the module documentation).
pub fn tokenize(input: &str) -> (r: Vec<String>)
    ensures
        texts(r@) == tokens_of(input@),
{
    let ghost s = input@;
    let n = input.unicode_len();
    let mut r: Vec<String> = Vec::new();
    let mut i: usize = 0;
    while i < n
        invariant
            s == input@,
            n == s.len(),
            i <= n,
            texts(r@) + tokens_from(s, i as int) == tokens_of(s),
        decreases n - i,
    {
        let ghost before = r@;
        let c = input.get_char(i);
        if is_blank_char(c) {
            i = i + 1;
        } else if c == '\'' || c == '"' {
            let j = find_char(input, c, i + 1);
            proof {
                lemma_find_from_bounds(s, c, i + 1);
            }
            if j < n {
                let t = input.substring_char(i + 1, j);
                r.push(String::from_str(t));
                proof {
                    assert(texts(r@) =~= texts(before).push(s.subrange(i + 1, j as int)));
                    assert(texts(r@) + tokens_from(s, j + 1) =~= texts(before) + tokens_from(
                        s,
                        i as int,
                    ));
                }
                i = j + 1;
            } else {
                i = i + 1;
            }
        } else {
            let e = find_word_end(input, i);
            proof {
                lemma_word_end_bounds(s, i as int);
            }
            let t = input.substring_char(i, e);
            r.push(String::from_str(t));
            proof {
                assert(texts(r@) =~= texts(before).push(s.subrange(i as int, e as int)));
                assert(texts(r@) + tokens_from(s, e as int) =~= texts(before) + tokens_from(
                    s,
                    i as int,
                ));
            }
            i = e;
        }
    }
    assert(texts(r@) =~= tokens_of(s));
    r
}

/// What one line at the prompt asks for.
#[derive(Debug, PartialEq, Eq)]
pub enum ChatCommand {
    Receive,
    Send(String),
    SendTo(String, String),
}

/// A command with its texts as sequences of characters.
pub enum CommandModel {
    Receive,
    Send(Seq<char>),
    SendTo(Seq<char>, Seq<char>),
}

impl View for ChatCommand {
    type V = CommandModel;

    open spec fn view(&self) -> CommandModel {
        match self {
            ChatCommand::Receive => CommandModel::Receive,
            ChatCommand::Send(m) => CommandModel::Send(m@),
            ChatCommand::SendTo(id, m) => CommandModel::SendTo(id@, m@),
        }
    }
}

pub open spec fn is_receive_flag(t: Seq<char>) -> bool {
    t == "-r"@ || t == "--receive"@
}

pub open spec fn is_send_flag(t: Seq<char>) -> bool {
    t == "-s"@ || t == "--send"@
}

pub open spec fn is_id_flag(t: Seq<char>) -> bool {
    t == "--id"@
}

pub open spec fn is_flag(t: Seq<char>) -> bool {
    is_receive_flag(t) || is_send_flag(t) || is_id_flag(t)
}

/// The flags seen so far on a line, with their values.
pub struct Flags {
    pub receive: bool,
    pub send: Option<Seq<Seq<char>>>,
    pub id: Option<Seq<char>>,
}

pub open spec fn no_flags() -> Flags {
    Flags { receive: false, send: None, id: None }
}

/// The end of the run of values that starts at `i`: the next flag, or the end.
pub open spec fn value_end(toks: Seq<Seq<char>>, i: int) -> int
    decreases toks.len() - i,
{
    if 0 <= i < toks.len() && !is_flag(toks[i]) {
        value_end(toks, i + 1)
    } else {
        i
    }
}

pub proof fn lemma_value_end_bounds(toks: Seq<Seq<char>>, i: int)
    requires
        0 <= i <= toks.len(),
    ensures
        i <= value_end(toks, i) <= toks.len(),
    decreases toks.len() - i,
{
    if i < toks.len() && !is_flag(toks[i]) {
        lemma_value_end_bounds(toks, i + 1);
    }
}

/// Reads the flags of `toks` from `i` on, on top of those in `f`; `None` where
/// the tokens are no command.
pub open spec fn scan_flags(toks: Seq<Seq<char>>, i: int, f: Flags) -> Option<Flags>
    decreases toks.len() - i,
{
    if i < 0 || i >= toks.len() {
        Some(f)
    } else if is_receive_flag(toks[i]) {
        if f.receive {
            None
        } else {
            scan_flags(toks, i + 1, Flags { receive: true, ..f })
        }
    } else if is_send_flag(toks[i]) {
        let e = value_end(toks, i + 1);
        proof {
            lemma_value_end_bounds(toks, i + 1);
        }
        if f.send is Some || e == i + 1 {
            None
        } else {
            scan_flags(toks, e, Flags { send: Some(toks.subrange(i + 1, e)), ..f })
        }
    } else if is_id_flag(toks[i]) {
        if f.id is Some || i + 1 >= toks.len() || is_flag(toks[i + 1]) {
            None
        } else {
            scan_flags(toks, i + 2, Flags { id: Some(toks[i + 1]), ..f })
        }
    } else {
        None
    }
}

/// Words joined by single spaces.
pub open spec fn join_words(w: Seq<Seq<char>>) -> Seq<char>
    decreases w.len(),
{
    if w.len() == 0 {
        Seq::empty()
    } else if w.len() == 1 {
        w[0]
    } else {
        join_words(w.drop_last()) + seq![' '] + w.last()
    }
}

/// The command that a set of flags makes, if any.
pub open spec fn command_from_flags(f: Flags) -> Option<CommandModel> {
    if f.receive {
        if f.send is None && f.id is None {
            Some(CommandModel::Receive)
        } else {
            None
        }
    } else {
        match f.send {
            Some(w) => match f.id {
                Some(d) => Some(CommandModel::SendTo(d, join_words(w))),
                None => Some(CommandModel::Send(join_words(w))),
            },
            None => None,
        }
    }
}

/// The command a line asks for: the one its flags make, or else receive for
/// an empty line and the line itself, to send, for any other.
pub open spec fn command_of(line: Seq<char>) -> CommandModel {
    let parsed = match scan_flags(tokens_of(line), 0, no_flags()) {
        Some(f) => command_from_flags(f),
        None => None,
    };
    match parsed {
        Some(c) => c,
        None => if line.len() == 0 {
            CommandModel::Receive
        } else {
            CommandModel::Send(line)
        },
    }
}

/// A line without flags needs no syntax: typed text is sent as it stands, and
/// an empty line asks to receive.
pub proof fn lemma_unflagged_line_is_sent(line: Seq<char>)
    requires
        forall|k: int| 0 <= k < tokens_of(line).len() ==> !is_flag(#[trigger] tokens_of(line)[k]),
    ensures
        line.len() == 0 ==> command_of(line) == CommandModel::Receive,
        line.len() > 0 ==> command_of(line) == CommandModel::Send(line),
{
    let toks = tokens_of(line);
    if toks.len() > 0 {
        assert(!is_flag(toks[0]));
        assert(scan_flags(toks, 0, no_flags()) is None);
    } else {
        assert(scan_flags(toks, 0, no_flags()) == Some(no_flags()));
    }
}

/// The flags seen so far, as positions in the token list.
struct FlagPositions {
    receive: bool,
    send: Option<(usize, usize)>,
    id: Option<usize>,
}

spec fn flags_at(toks: Seq<Seq<char>>, p: FlagPositions) -> Flags {
    Flags {
        receive: p.receive,
        send: match p.send {
            Some((a, b)) => Some(toks.subrange(a as int, b as int)),
            None => None,
        },
        id: match p.id {
            Some(k) => Some(toks[k as int]),
            None => None,
        },
    }
}

spec fn positions_fit(p: FlagPositions, len: nat) -> bool {
    &&& (p.send matches Some((a, b)) ==> 0 < a < b <= len)
    &&& (p.id matches Some(k) ==> k < len)
}

enum TokenKind {
    Receive,
    Send,
    Id,
    Word,
}

fn token_kind(t: &str) -> (r: TokenKind)
    ensures
        r is Receive <==> is_receive_flag(t@),
        r is Send <==> is_send_flag(t@),
        r is Id <==> is_id_flag(t@),
{
    proof {
        reveal_strlit("-r");
        reveal_strlit("--receive");
        reveal_strlit("-s");
        reveal_strlit("--send");
        reveal_strlit("--id");
        assert("-r"@[1] != "-s"@[1]);
        assert("--receive"@.len() != "--send"@.len());
        assert("--receive"@.len() != "--id"@.len());
        assert("--send"@.len() != "--id"@.len());
    }
    if text_equals(t, "-r") || text_equals(t, "--receive") {
        TokenKind::Receive
    } else if text_equals(t, "-s") || text_equals(t, "--send") {
        TokenKind::Send
    } else if text_equals(t, "--id") {
        TokenKind::Id
    } else {
        TokenKind::Word
    }
}

fn is_flag_token(t: &str) -> (r: bool)
    ensures
        r == is_flag(t@),
{
    match token_kind(t) {
        TokenKind::Word => false,
        _ => true,
    }
}

fn find_value_end(toks: &Vec<String>, from: usize) -> (r: usize)
    requires
        from <= toks@.len(),
    ensures
        r == value_end(texts(toks@), from as int),
{
    let ghost ts = texts(toks@);
    let n = toks.len();
    let mut j = from;
    while j < n
        invariant
            ts == texts(toks@),
            n == toks@.len(),
            from <= j <= n,
            value_end(ts, from as int) == value_end(ts, j as int),
        decreases n - j,
    {
        if is_flag_token(toks[j].as_str()) {
            return j;
        }
        j = j + 1;
    }
    j
}

fn scan_tokens(toks: &Vec<String>) -> (r: Option<FlagPositions>)
    ensures
        match r {
            Some(p) => positions_fit(p, toks@.len()) && scan_flags(texts(toks@), 0, no_flags())
                == Some(flags_at(texts(toks@), p)),
            None => scan_flags(texts(toks@), 0, no_flags()) is None,
        },
{
    let ghost ts = texts(toks@);
    let n = toks.len();
    let mut p = FlagPositions { receive: false, send: None, id: None };
    let mut i: usize = 0;
    assert(flags_at(ts, p) == no_flags());
    while i < n
        invariant
            ts == texts(toks@),
            n == toks@.len(),
            i <= n,
            positions_fit(p, n as nat),
            scan_flags(ts, 0, no_flags()) == scan_flags(ts, i as int, flags_at(ts, p)),
        decreases n - i,
    {
        let ghost f = flags_at(ts, p);
        match token_kind(toks[i].as_str()) {
            TokenKind::Receive => {
                if p.receive {
                    return None;
                }
                p = FlagPositions { receive: true, ..p };
                assert(flags_at(ts, p) == Flags { receive: true, ..f });
                i = i + 1;
            },
            TokenKind::Send => {
                let e = find_value_end(toks, i + 1);
                proof {
                    lemma_value_end_bounds(ts, i + 1);
                }
                if p.send.is_some() || e == i + 1 {
                    return None;
                }
                p = FlagPositions { send: Some((i + 1, e)), ..p };
                assert(flags_at(ts, p) == Flags { send: Some(ts.subrange(i + 1, e as int)), ..f });
                i = e;
            },
            TokenKind::Id => {
                if p.id.is_some() || i + 1 >= n || is_flag_token(toks[i + 1].as_str()) {
                    return None;
                }
                p = FlagPositions { id: Some(i + 1), ..p };
                assert(flags_at(ts, p) == Flags { id: Some(ts[i + 1]), ..f });
                i = i + 2;
            },
            TokenKind::Word => {
                return None;
            },
        }
    }
    Some(p)
}

/// The tokens `toks[from..to]` joined by single spaces.
fn join_tokens(toks: &Vec<String>, from: usize, to: usize) -> (r: String)
    requires
        from < to <= toks@.len(),
    ensures
        r@ == join_words(texts(toks@).subrange(from as int, to as int)),
{
    let ghost ts = texts(toks@);
    let mut r = String::from_str(toks[from].as_str());
    let mut k = from + 1;
    assert(ts.subrange(from as int, k as int).drop_last() =~= Seq::<Seq<char>>::empty());
    while k < to
        invariant
            ts == texts(toks@),
            from < k <= to <= toks@.len(),
            r@ == join_words(ts.subrange(from as int, k as int)),
        decreases to - k,
    {
        r.append(" ");
        r.append(toks[k].as_str());
        proof {
            reveal_strlit(" ");
            let w = ts.subrange(from as int, k + 1);
            assert(w.drop_last() =~= ts.subrange(from as int, k as int));
        }
        k = k + 1;
    }
    r
}

/// Reads one line of the prompt as a command (see the module documentation).
pub fn parse_chat_command(input: String) -> (r: ChatCommand)
    ensures
        r@ == command_of(input@),
{
    let toks = tokenize(input.as_str());
    let ghost ts = texts(toks@);
    match scan_tokens(&toks) {
        Some(p) => {
            let ghost f = flags_at(ts, p);
            if p.receive {
                if p.send.is_none() && p.id.is_none() {
                    return ChatCommand::Receive;
                }
            } else {
                match p.send {
                    Some((a, b)) => {
                        let text = join_tokens(&toks, a, b);
                        match p.id {
                            Some(k) => {
                                let id = String::from_str(toks[k].as_str());
                                return ChatCommand::SendTo(id, text);
                            },
                            None => {
                                return ChatCommand::Send(text);
                            },
                        }
                    },
                    None => {},
                }
            }
        },
        None => {},
    }
    if input.as_str().is_empty() {
        ChatCommand::Receive
    } else {
        ChatCommand::Send(input)
    }
}

} // verus!
