//! The credits screen: hyperlinks to contributors, the timer that scrolls the
//! credits, and what a key press does.

use vstd::prelude::*;
use vstd::string::*;

use crate::text::{decimal, push_decimal, strings_view};

verus! {

/// A hyperlink for terminals that support OSC 8 escape sequences
#[derive(Debug)]
pub struct Url {
    pub text: String,
    pub url: String,
}

/// The escape sequence that shows `text` as a link to `url`.
pub open spec fn hyperlink(text: Seq<char>, url: Seq<char>) -> Seq<char> {
    "\u{1b}]8;;"@ + url + "\u{1b}\\"@ + text + "\u{1b}]8;;\u{1b}\\"@
}

impl Url {
    /// A link showing `text` that leads to `url`
    pub fn new(text: String, url: String) -> (u: Url)
        ensures
            u.text == text,
            u.url == url,
    {
        Url { text, url }
    }

    /// The link as its `Display` writes it
    pub fn to_string(&self) -> (s: String)
        ensures
            s@ == hyperlink(self.text@, self.url@),
    {
        let mut s = String::from_str("\u{1b}]8;;");
        s.append(self.url.as_str());
        s.append("\u{1b}\\");
        s.append(self.text.as_str());
        s.append("\u{1b}]8;;\u{1b}\\");
        s
    }
}

/// The scrolling timer of the credits: time accumulates until it reaches the
/// timeout, then the timer fires and starts again from zero. Durations are in
/// nanoseconds.
#[derive(Debug, Copy, Clone, PartialEq, Eq, Structural)]
pub struct Timer {
    pub timeout: u128,
    pub current: u128,
}

impl Timer {
    /// A timer with the given timeout that has not run yet
    pub fn new(timeout: u128) -> (t: Timer)
        ensures
            t.timeout == timeout,
            t.current == 0,
    {
        Timer { timeout, current: 0 }
    }

    /// Let `delta` pass; tells whether the timer fired
    pub fn tick(&mut self, delta: u128) -> (fired: bool)
        requires
            old(self).current + delta <= u128::MAX,
        ensures
            fired == (old(self).current + delta >= old(self).timeout),
            final(self).timeout == old(self).timeout,
            final(self).current == (if fired {
                0
            } else {
                old(self).current + delta
            }),
            final(self).timeout > 0 ==> final(self).current < final(self).timeout,
    {
        self.current = self.current + delta;
        if self.current >= self.timeout {
            self.current = 0;
            true
        } else {
            false
        }
    }

    /// Change the timeout
    pub fn set_timeout(&mut self, timeout: u128)
        ensures
            final(self).timeout == timeout,
            final(self).current == old(self).current,
    {
        self.timeout = timeout;
    }
}

/// The scrolling speed while Down is held, in milliseconds per line
pub const FAST_SCROLL_MS: u64 = 16;

/// The scrolling speed otherwise, in milliseconds per line
pub const SLOW_SCROLL_MS: u64 = 743;

/// What a key event does on the credits screen
#[derive(Debug, Copy, Clone, PartialEq, Eq, Structural)]
pub enum KeyResponse {
    /// Leave the credits
    Quit,
    /// Set the scrolling timer's timeout to this many milliseconds
    Scroll(u64),
    /// Nothing
    Ignore,
}

/// The kind of a key event
#[derive(Debug, Copy, Clone, PartialEq, Eq, Structural)]
pub enum KeyEventKind {
    Press,
    Repeat,
    Release,
}

/// The keys the credits screen reacts to
#[derive(Debug, Copy, Clone, PartialEq, Eq, Structural)]
pub enum Key {
    Q,
    Down,
    Other,
}

/// What a key event does: pressing Q quits; holding Down speeds the
/// scrolling up, when the credits scroll, and releasing it slows it down.
pub open spec fn key_response_of(key: Key, kind: KeyEventKind, scrolling: bool) -> KeyResponse {
    if kind == KeyEventKind::Press && key == Key::Q {
        KeyResponse::Quit
    } else if key == Key::Down && scrolling && kind == KeyEventKind::Press {
        KeyResponse::Scroll(FAST_SCROLL_MS)
    } else if key == Key::Down && scrolling && kind == KeyEventKind::Release {
        KeyResponse::Scroll(SLOW_SCROLL_MS)
    } else {
        KeyResponse::Ignore
    }
}

/// What a key event does; `scrolling` tells whether the credits scroll
pub fn key_response(key: Key, kind: KeyEventKind, scrolling: bool) -> (r: KeyResponse)
    ensures
        r == key_response_of(key, kind, scrolling),
{
    if kind == KeyEventKind::Press && key == Key::Q {
        return KeyResponse::Quit;
    }
    if key == Key::Down && scrolling {
        if kind == KeyEventKind::Press {
            return KeyResponse::Scroll(FAST_SCROLL_MS);
        }
        if kind == KeyEventKind::Release {
            return KeyResponse::Scroll(SLOW_SCROLL_MS);
        }
    }
    KeyResponse::Ignore
}

/// The footer of the credits screen.
pub open spec fn footer_text(scrolling: bool) -> Seq<char> {
    if scrolling {
        "Press Q to exit | Press Down to speed up the credits scrolling"@
    } else {
        "Press Q to exit"@
    }
}

/// The footer of the credits screen; `scrolling` tells whether the credits scroll
pub fn footer(scrolling: bool) -> (s: String)
    ensures
        s@ == footer_text(scrolling),
{
    let mut footer = String::from_str("Press Q to exit");
    if scrolling {
        footer.append(" | Press Down to speed up the credits scrolling");
    }
    proof {
        reveal_strlit("Press Q to exit");
        reveal_strlit(" | Press Down to speed up the credits scrolling");
        reveal_strlit("Press Q to exit | Press Down to speed up the credits scrolling");
    }
    assert(footer@ =~= footer_text(scrolling));
    footer
}

/// The scrolling list of credits: how many lines are left, and the timer
/// that scrolls them, which runs only when the lines did not fit on the screen
#[derive(Debug, Copy, Clone, PartialEq, Eq, Structural)]
pub struct Scroll {
    pub remaining: usize,
    pub timer: Option<Timer>,
}

/// What one frame of the credits screen does
#[derive(Debug, Copy, Clone, PartialEq, Eq, Structural)]
pub struct Frame {
    /// The first line scrolled away
    pub popped: bool,
    /// No line is left, so the screen closes
    pub quit: bool,
}

impl Scroll {
    /// The credits, `lines` of them, on a screen of `rows` rows: they scroll,
    /// at the slow speed, when they do not fit
    pub fn new(lines: usize, rows: usize) -> (s: Scroll)
        ensures
            s.remaining == lines,
            s.timer is Some <==> lines > rows,
            s.timer matches Some(t) ==> t.timeout == SLOW_SCROLL_MS * 1_000_000 && t.current == 0,
    {
        let timer = if lines > rows {
            Some(Timer::new(SLOW_SCROLL_MS as u128 * 1_000_000))
        } else {
            None
        };
        Scroll { remaining: lines, timer }
    }

    /// One frame, `delta` nanoseconds after the last: when the timer fires,
    /// the first line scrolls away; once no line is left, the screen closes.
    pub fn frame(&mut self, delta: u128) -> (f: Frame)
        requires
            old(self).timer matches Some(t) ==> t.current + delta <= u128::MAX,
        ensures
            f.popped == (old(self).timer matches Some(t) && t.current + delta >= t.timeout
                && old(self).remaining > 0),
            final(self).remaining == (if f.popped {
                old(self).remaining - 1
            } else {
                old(self).remaining as int
            }),
            f.quit == (final(self).remaining == 0),
            old(self).timer is None ==> final(self).timer is None,
            old(self).timer matches Some(t) ==> final(self).timer == Some(
                Timer {
                    timeout: t.timeout,
                    current: if t.current + delta >= t.timeout {
                        0
                    } else {
                        (t.current + delta) as u128
                    },
                },
            ),
    {
        let mut popped = false;
        match &mut self.timer {
            Some(timer) => {
                if timer.tick(delta) && self.remaining > 0 {
                    self.remaining = self.remaining - 1;
                    popped = true;
                }
            },
            None => {},
        }
        Frame { popped, quit: self.remaining == 0 }
    }

    /// Set how fast the credits scroll, in milliseconds per line, if they scroll
    pub fn set_speed(&mut self, millis: u64)
        ensures
            final(self).remaining == old(self).remaining,
            final(self).timer is Some == old(self).timer is Some,
            final(self).timer matches Some(t) ==> t.timeout == millis * 1_000_000 && t.current
                == old(self).timer->Some_0.current,
    {
        match &mut self.timer {
            Some(timer) => timer.set_timeout(millis as u128 * 1_000_000),
            None => {},
        }
    }
}

/// The title over all contributors
pub const CONTRIBUTORS_TITLE: &'static str = "💖 Many thanks to all our incredible contributors 💖";

/// The title over the contributors to sfsu
pub const SFSU_CONTRIBUTORS_TITLE: &'static str = "🛹 In sfsu 🛹";

/// The title over the contributors to sprinkles
pub const SPRINKLES_CONTRIBUTORS_TITLE: &'static str = "🍨 And in sprinkles 🍨";

/// The title over the crates used, which counts them.
pub open spec fn packages_title(count: nat) -> Seq<char> {
    "📦 And all the incredible "@ + decimal(count) + " crates we use 📦"@
}

/// The line of a contributor: the name, then the link in brackets.
pub open spec fn contributor_line(c: (Seq<char>, Seq<char>)) -> Seq<char> {
    c.0 + " ("@ + c.1 + ")"@
}

/// The line of a crate: its name, a dash, its version.
pub open spec fn package_line(p: (Seq<char>, Seq<char>)) -> Seq<char> {
    p.0 + " - "@ + p.1
}

/// The views of pairs of strings.
pub open spec fn pairs_view(v: Seq<(String, String)>) -> Seq<(Seq<char>, Seq<char>)> {
    v.map_values(|p: (String, String)| (p.0@, p.1@))
}

/// The lines of the scrolling credits on a screen of `rows` rows: a quarter
/// of the screen blank, the title over all contributors, the contributors to
/// sfsu and to sprinkles each under their title, then, when asked for, the
/// crates used under theirs; a blank line follows each title and stands
/// before each title but the first two.
pub open spec fn credit_lines(
    rows: nat,
    contributors: Seq<(Seq<char>, Seq<char>)>,
    sprinkles: Seq<(Seq<char>, Seq<char>)>,
    packages: Option<Seq<(Seq<char>, Seq<char>)>>,
) -> Seq<Seq<char>> {
    let head = Seq::new(rows / 4, |i: int| Seq::<char>::empty()) + seq![
        CONTRIBUTORS_TITLE@,
        Seq::empty(),
        SFSU_CONTRIBUTORS_TITLE@,
        Seq::empty(),
    ] + contributors.map_values(|c: (Seq<char>, Seq<char>)| contributor_line(c)) + seq![
        Seq::empty(),
        SPRINKLES_CONTRIBUTORS_TITLE@,
        Seq::empty(),
    ] + sprinkles.map_values(|c: (Seq<char>, Seq<char>)| contributor_line(c));
    match packages {
        Some(ps) => head + seq![Seq::empty(), packages_title(ps.len()), Seq::empty()] + ps.map_values(
            |p: (Seq<char>, Seq<char>)| package_line(p),
        ),
        None => head,
    }
}

/// Add one line
fn push_line(lines: &mut Vec<String>, line: String)
    ensures
        strings_view(final(lines)@) == strings_view(old(lines)@).push(line@),
{
    let ghost before = lines@;
    lines.push(line);
    assert(strings_view(lines@) =~= strings_view(before).push(line@));
}

/// Add the line of each pair, as `name (link)` or as `name - version`
fn push_pairs(lines: &mut Vec<String>, pairs: &Vec<(String, String)>, as_package: bool)
    ensures
        strings_view(final(lines)@) == strings_view(old(lines)@) + (if as_package {
            pairs_view(pairs@).map_values(|p: (Seq<char>, Seq<char>)| package_line(p))
        } else {
            pairs_view(pairs@).map_values(|c: (Seq<char>, Seq<char>)| contributor_line(c))
        }),
{
    let ghost start = strings_view(lines@);
    let ghost f = if as_package {
        |p: (Seq<char>, Seq<char>)| package_line(p)
    } else {
        |c: (Seq<char>, Seq<char>)| contributor_line(c)
    };
    let n = pairs.len();
    let mut i: usize = 0;
    assert(pairs_view(pairs@).take(0).map_values(f) =~= Seq::<Seq<char>>::empty());
    while i < n
        invariant
            n == pairs@.len(),
            i <= n,
            f == (if as_package {
                |p: (Seq<char>, Seq<char>)| package_line(p)
            } else {
                |c: (Seq<char>, Seq<char>)| contributor_line(c)
            }),
            strings_view(lines@) == start + pairs_view(pairs@).take(i as int).map_values(f),
        decreases n - i,
    {
        let (a, b) = &pairs[i];
        let mut line = String::from_str(a.as_str());
        if as_package {
            line.append(" - ");
            line.append(b.as_str());
        } else {
            line.append(" (");
            line.append(b.as_str());
            line.append(")");
        }
        let ghost before = strings_view(lines@);
        push_line(lines, line);
        proof {
            assert(pairs_view(pairs@)[i as int] == (a@, b@));
            assert(pairs_view(pairs@).take(i + 1).map_values(f) =~= pairs_view(pairs@).take(i as int).map_values(
                f,
            ).push(f((a@, b@))));
        }
        i += 1;
    }
    assert(pairs_view(pairs@).take(n as int) =~= pairs_view(pairs@));
}

/// The lines of the scrolling credits, given the rows of the screen, the
/// contributors to sfsu and to sprinkles (name and link) and, when they are
/// shown, the crates used (name and version)
pub fn credit_items(
    rows: usize,
    contributors: &Vec<(String, String)>,
    sprinkles: &Vec<(String, String)>,
    packages: &Option<Vec<(String, String)>>,
) -> (lines: Vec<String>)
    ensures
        strings_view(lines@) == credit_lines(
            rows as nat,
            pairs_view(contributors@),
            pairs_view(sprinkles@),
            match packages {
                Some(ps) => Some(pairs_view(ps@)),
                None => None,
            },
        ),
{
    let mut lines: Vec<String> = Vec::new();
    let blanks = rows / 4;
    let mut i: usize = 0;
    assert(strings_view(lines@) =~= Seq::new(0, |k: int| Seq::<char>::empty()));
    while i < blanks
        invariant
            i <= blanks,
            strings_view(lines@) == Seq::new(i as nat, |k: int| Seq::<char>::empty()),
        decreases blanks - i,
    {
        push_line(&mut lines, String::new());
        assert(strings_view(lines@) =~= Seq::new((i + 1) as nat, |k: int| Seq::<char>::empty()));
        i += 1;
    }
    push_line(&mut lines, String::from_str(CONTRIBUTORS_TITLE));
    push_line(&mut lines, String::new());
    push_line(&mut lines, String::from_str(SFSU_CONTRIBUTORS_TITLE));
    push_line(&mut lines, String::new());
    push_pairs(&mut lines, contributors, false);
    push_line(&mut lines, String::new());
    push_line(&mut lines, String::from_str(SPRINKLES_CONTRIBUTORS_TITLE));
    push_line(&mut lines, String::new());
    push_pairs(&mut lines, sprinkles, false);
    let ghost head = strings_view(lines@);
    assert(head =~= credit_lines(rows as nat, pairs_view(contributors@), pairs_view(sprinkles@), None));
    match packages {
        Some(ps) => {
            push_line(&mut lines, String::new());
            let mut title = String::from_str("📦 And all the incredible ");
            push_decimal(&mut title, ps.len() as u64);
            title.append(" crates we use 📦");
            push_line(&mut lines, title);
            push_line(&mut lines, String::new());
            push_pairs(&mut lines, ps, true);
            assert(strings_view(lines@) =~= credit_lines(
                rows as nat,
                pairs_view(contributors@),
                pairs_view(sprinkles@),
                Some(pairs_view(ps@)),
            ));
        },
        None => {},
    }
    lines
}

/// Pressing Q quits whatever else holds; when the credits do not scroll, no
/// key changes the speed; Down sets a speed only while the credits scroll,
/// faster while it is held than after it is let go.
pub proof fn lemma_key_responses(key: Key, kind: KeyEventKind, scrolling: bool)
    ensures
        key == Key::Q && kind == KeyEventKind::Press ==> key_response_of(key, kind, scrolling) == KeyResponse::Quit,
        !scrolling ==> !(key_response_of(key, kind, scrolling) is Scroll),
        key_response_of(key, kind, scrolling) is Scroll ==> key == Key::Down && scrolling,
        key == Key::Down && scrolling && kind == KeyEventKind::Press ==> (key_response_of(key, kind, scrolling)
            matches KeyResponse::Scroll(fast) && fast < SLOW_SCROLL_MS),
        key == Key::Other ==> key_response_of(key, kind, scrolling) == KeyResponse::Ignore,
{
}

} // verus!
