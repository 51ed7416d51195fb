//! The image protocol of the terminal. It is found out by a short-lived
//! process of its own, which reports what it has found in one line.

use vstd::prelude::*;

use crate::text;
use crate::text::{
    after_prefix, cat, cat3, has_prefix, has_substring, lines_of, parse_number, same,
    split_text, u64_text, words_of,
};

verus! {

/// How a terminal shows images.
#[derive(Debug, Clone, Copy, PartialEq, Eq, Structural)]
pub enum Protocol {
    Kitty,
    Sixel,
    Iterm2,
    Halfblocks,
}

impl Protocol {
    /// What a protocol is called.
    pub open spec fn name(self) -> Seq<char> {
        match self {
            Protocol::Kitty => "kitty"@,
            Protocol::Sixel => "sixel"@,
            Protocol::Iterm2 => "iterm2"@,
            Protocol::Halfblocks => "halfblocks"@,
        }
    }

    pub fn as_str(self) -> (r: &'static str)
        ensures
            r@ == self.name(),
    {
        match self {
            Protocol::Kitty => "kitty",
            Protocol::Sixel => "sixel",
            Protocol::Iterm2 => "iterm2",
            Protocol::Halfblocks => "halfblocks",
        }
    }

    /// The protocol with the given name; half blocks for any other.
    pub open spec fn named(s: Seq<char>) -> Protocol {
        if s == "kitty"@ {
            Protocol::Kitty
        } else if s == "sixel"@ {
            Protocol::Sixel
        } else if s == "iterm2"@ {
            Protocol::Iterm2
        } else {
            Protocol::Halfblocks
        }
    }
}

/// What was found out about the terminal.
#[derive(Debug, Clone, Copy, PartialEq, Eq)]
pub struct Probe {
    pub protocol: Protocol,
    /// The size of a character cell in pixels.
    pub font: (u16, u16),
    /// The terminal shows images itself.
    pub native: bool,
}

/// The line that reports a finding.
pub open spec fn report_line(protocol: Protocol, w: u16, h: u16) -> Seq<char> {
    "protocol="@ + protocol.name() + " font="@ + text::dec(w as nat) + "x"@ + text::dec(h as nat)
}

/// The line that reports a finding.
pub fn probe_line(protocol: Protocol, w: u16, h: u16) -> (r: String)
    ensures
        r@ == report_line(protocol, w, h),
{
    let font = cat3(u64_text(w as u64).as_str(), "x", u64_text(h as u64).as_str());
    let r = cat(cat3("protocol=", protocol.as_str(), " font=").as_str(), font.as_str());
    assert(r@ =~= report_line(protocol, w, h));
    r
}

/// What is known after some words of a report: the protocol's name and the
/// size of a cell; nothing where a size cannot be read.
pub open spec fn words_read(words: Seq<Seq<char>>) -> Option<(Seq<char>, (u16, u16))>
    decreases words.len(),
{
    if words.len() == 0 {
        Some(("halfblocks"@, (10u16, 20u16)))
    } else {
        match words_read(words.drop_last()) {
            None => None,
            Some((name, font)) => {
                let w = words.last();
                let name2 = if text::starts_with(w, "protocol="@) {
                    w.skip("protocol="@.len() as int)
                } else {
                    name
                };
                if text::starts_with(w, "font="@) {
                    let parts = text::split(w.skip("font="@.len() as int), 'x');
                    if parts.len() >= 2 {
                        match (text::parse_dec(parts[0], 65535), text::parse_dec(parts[1], 65535)) {
                            (Some(a), Some(b)) => Some((name2, (a as u16, b as u16))),
                            _ => None,
                        }
                    } else {
                        Some((name2, font))
                    }
                } else {
                    Some((name2, font))
                }
            },
        }
    }
}

/// What a report says.
pub open spec fn probe_read(s: Seq<char>) -> Option<Probe> {
    let ls = text::lines(s);
    if ls.len() == 0 {
        None
    } else {
        match words_read(text::words(ls[0])) {
            Some((name, font)) => Some(
                Probe { protocol: Protocol::named(name), font, native: name != "halfblocks"@ },
            ),
            None => None,
        }
    }
}

fn read_font(v: &str) -> (r: Option<Option<(u16, u16)>>)
    ensures
        ({
            let parts = text::split(v@, 'x');
            if parts.len() >= 2 {
                match (text::parse_dec(parts[0], 65535), text::parse_dec(parts[1], 65535)) {
                    (Some(a), Some(b)) => r == Some(Some((a as u16, b as u16))),
                    _ => r is None,
                }
            } else {
                r == Some(None::<(u16, u16)>)
            }
        }),
{
    let parts = split_text(v, 'x');
    let ghost ps = text::split(v@, 'x');
    if parts.len() < 2 {
        return Some(None);
    }
    assert(ps[0] == parts@[0]@ && ps[1] == parts@[1]@);
    match (parse_number(parts[0].as_str(), 65535), parse_number(parts[1].as_str(), 65535)) {
        (Some(a), Some(b)) => Some(Some((a as u16, b as u16))),
        _ => None,
    }
}

/// What a report says, if it can be read.
pub fn parse_probe_line(s: &str) -> (r: Option<Probe>)
    ensures
        r == probe_read(s@),
{
    let ls = lines_of(s);
    if ls.len() == 0 {
        return None;
    }
    let ghost line = text::lines(s@)[0];
    assert(line == ls@[0]@);
    let words = words_of(ls[0].as_str());
    let ghost ws = text::words(line);
    let mut name: String = "halfblocks".to_owned();
    let mut font: (u16, u16) = (10, 20);
    let mut i: usize = 0;
    assert(ws.take(0) =~= Seq::empty());
    while i < words.len()
        invariant
            i <= words@.len(),
            text::lines(s@).len() > 0,
            line == text::lines(s@)[0],
            ws == text::words(line),
            ws == text::texts(words@),
            words_read(ws.take(i as int)) == Some((name@, font)),
        decreases words@.len() - i,
    {
        assert(ws.take(i + 1).drop_last() =~= ws.take(i as int));
        assert(ws.take(i + 1).last() == words@[i as int]@);
        let w = words[i].as_str();
        if let Some(v) = after_prefix(w, "protocol=") {
            name = v;
        }
        if let Some(v) = after_prefix(w, "font=") {
            match read_font(v.as_str()) {
                None => {
                    proof {
                        lemma_unreadable(ws, i + 1);
                    }
                    return None;
                },
                Some(Some(f)) => {
                    font = f;
                },
                Some(None) => {},
            }
        }
        i = i + 1;
    }
    assert(ws.take(ws.len() as int) =~= ws);
    let protocol = if same(name.as_str(), "kitty") {
        Protocol::Kitty
    } else if same(name.as_str(), "sixel") {
        Protocol::Sixel
    } else if same(name.as_str(), "iterm2") {
        Protocol::Iterm2
    } else {
        Protocol::Halfblocks
    };
    let native = !same(name.as_str(), "halfblocks");
    Some(Probe { protocol, font, native })
}

proof fn lemma_unreadable(ws: Seq<Seq<char>>, n: int)
    requires
        0 <= n <= ws.len(),
        words_read(ws.take(n)) is None,
    ensures
        words_read(ws) is None,
    decreases ws.len() - n,
{
    if n < ws.len() {
        assert(ws.take(n + 1).drop_last() =~= ws.take(n));
        lemma_unreadable(ws, n + 1);
    } else {
        assert(ws.take(n) =~= ws);
    }
}

/// What is taken to be found where the report cannot be read or there is
/// none.
pub fn fallback_probe() -> (r: Probe)
    ensures
        r == (Probe { protocol: Protocol::Halfblocks, font: (10u16, 20u16), native: false }),
{
    Probe { protocol: Protocol::Halfblocks, font: (10, 20), native: false }
}

/// Whether the process that asks the terminal must be told that it does not
/// run inside tmux: tmux swallows the answers to questions that are wrapped
/// for it, but answers plain ones.
pub fn hides_tmux(term: &str, term_program: &str) -> (r: bool)
    ensures
        r == (text::starts_with(term@, "tmux"@) || term_program@ == "tmux"@),
{
    has_prefix(term, "tmux") || same(term_program, "tmux")
}

/// The exit status of the program: a terminal that went away counts as an
/// interruption.
pub fn result_or_interrupt(result: Result<i32, String>) -> (r: Result<i32, String>)
    ensures
        match result {
            Ok(code) => r == Ok::<i32, String>(code),
            Err(e) => if text::contains_text(e@, "terminal event error"@) {
                r == Ok::<i32, String>(130i32)
            } else {
                r is Err && r->Err_0@ == e@
            },
        },
{
    match result {
        Ok(code) => Ok(code),
        Err(e) => if has_substring(e.as_str(), "terminal event error") {
            Ok(130)
        } else {
            Err(e)
        },
    }
}

proof fn lemma_digits_solid(n: nat)
    ensures
        text::solid(text::dec(n)),
        !text::dec(n).contains('x'),
        !text::dec(n).contains('\n'),
{
    text::law_number_round_trip(n, n);
    let d = text::dec(n);
    assert(text::all_digits(d)) by {
        assert(text::parse_dec(d, n) is Some);
        if d[0] == '+' {
            text::lemma_dec_no_sign(n);
        }
    }
    assert forall|i: int| 0 <= i < d.len() implies !text::is_white(#[trigger] d[i]) by {}
}

/// What the short-lived process reports is what the program reads.
pub proof fn law_report_round_trip(protocol: Protocol, w: u16, h: u16)
    ensures
        probe_read(report_line(protocol, w, h)) == Some(
            Probe { protocol, font: (w, h), native: protocol != Protocol::Halfblocks },
        ),
{
    reveal_strlit("protocol=");
    reveal_strlit("font=");
    reveal_strlit(" font=");
    reveal_strlit("x");
    reveal_strlit("kitty");
    reveal_strlit("sixel");
    reveal_strlit("iterm2");
    reveal_strlit("halfblocks");
    lemma_digits_solid(w as nat);
    lemma_digits_solid(h as nat);
    let line = report_line(protocol, w, h);
    let a = "protocol="@ + protocol.name();
    let size = text::dec(w as nat) + "x"@ + text::dec(h as nat);
    let b = "font="@ + size;
    let gap = seq![' '];
    assert(line =~= a + gap + b);
    // One line.
    assert(!line.contains('\n')) by {
        assert forall|i: int| 0 <= i < line.len() implies line[i] != '\n' by {
            if i >= a.len() + 6 + text::dec(w as nat).len() + 1 {
                let j = i - a.len() - 6 - text::dec(w as nat).len() - 1;
                assert(line[i] == text::dec(h as nat)[j]);
            } else if i >= a.len() + 6 && i < a.len() + 6 + text::dec(w as nat).len() {
                assert(line[i] == text::dec(w as nat)[i - a.len() - 6]);
            }
        }
    }
    text::lemma_one_line(line);
    // Two words.
    assert(text::solid(a)) by {
        assert forall|i: int| 0 <= i < a.len() implies !text::is_white(#[trigger] a[i]) by {}
    }
    assert(text::solid(b)) by {
        assert forall|i: int| 0 <= i < b.len() implies !text::is_white(#[trigger] b[i]) by {
            if i >= 5 && i < 5 + text::dec(w as nat).len() {
                assert(b[i] == text::dec(w as nat)[i - 5]);
            } else if i > 5 + text::dec(w as nat).len() {
                assert(b[i] == text::dec(h as nat)[i - 6 - text::dec(w as nat).len()]);
            }
        }
    }
    text::lemma_words_append(Seq::empty(), a);
    assert(Seq::<char>::empty() + a =~= a);
    let ag = a + gap;
    assert(ag.drop_last() =~= a);
    assert(text::words(ag) == text::words(a));
    text::lemma_words_append(ag, b);
    let ws = text::words(line);
    assert(text::words(Seq::<char>::empty()) =~= Seq::<Seq<char>>::empty());
    assert(ws =~= seq![a, b]);
    // The first word.
    assert(ws.drop_last() =~= seq![a]);
    assert(seq![a].drop_last() =~= Seq::<Seq<char>>::empty());
    assert(a.subrange(0, 9) =~= "protocol="@);
    assert(a.skip(9) =~= protocol.name());
    assert(!text::starts_with(a, "font="@)) by {
        if text::starts_with(a, "font="@) {
            assert(a.subrange(0, 5)[0] == 'f');
        }
    }
    // The second word.
    assert(b.subrange(0, 5) =~= "font="@);
    assert(b.skip(5) =~= size);
    assert(!text::starts_with(b, "protocol="@)) by {
        if text::starts_with(b, "protocol="@) {
            assert(b.subrange(0, 9)[0] == 'p');
        }
    }
    text::lemma_split_pair(text::dec(w as nat), 'x', text::dec(h as nat));
    assert(size =~= text::dec(w as nat).push('x') + text::dec(h as nat));
    text::law_number_round_trip(w as nat, 65535);
    text::law_number_round_trip(h as nat, 65535);
    assert(words_read(Seq::empty()) == Some(("halfblocks"@, (10u16, 20u16))));
    assert(words_read(seq![a]) == Some((protocol.name(), (10u16, 20u16))));
    assert(words_read(ws) == Some((protocol.name(), (w, h))));
    assert("kitty"@[0] == 'k' && "sixel"@[0] == 's');
    assert("iterm2"@.len() == 6 && "halfblocks"@.len() == 10);
    assert(Protocol::named(protocol.name()) == protocol);
}

/// A report that says nothing stands for half blocks and cells of ten by
/// twenty pixels; a name that is not known stands for half blocks too; and
/// without a line nothing is known.
pub proof fn law_probe_defaults(s: Seq<char>)
    requires
        s != "kitty"@,
        s != "sixel"@,
        s != "iterm2"@,
    ensures
        words_read(Seq::empty()) == Some(("halfblocks"@, (10u16, 20u16))),
        Protocol::named(s) == Protocol::Halfblocks,
        text::lines(s).len() == 0 ==> probe_read(s) is None,
{
}

/// Each protocol is known by its name.
pub proof fn law_protocol_names(p: Protocol)
    ensures
        Protocol::named(p.name()) == p,
        Protocol::Kitty.name() == "kitty"@,
        Protocol::Sixel.name() == "sixel"@,
        Protocol::Iterm2.name() == "iterm2"@,
        Protocol::Halfblocks.name() == "halfblocks"@,
{
    reveal_strlit("kitty");
    reveal_strlit("sixel");
    reveal_strlit("iterm2");
    reveal_strlit("halfblocks");
    assert("kitty"@.len() == 5 && "sixel"@.len() == 5 && "iterm2"@.len() == 6
        && "halfblocks"@.len() == 10);
    assert("kitty"@[0] == 'k' && "sixel"@[0] == 's');
}

} // verus!
