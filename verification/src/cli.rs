//! The command line, and the debugging aid that opens and closes the card over
//! and over.
use crate::text;
use crate::text::{path_below, same_text, to_chars};
use crate::text_laws::worth;
use vstd::prelude::*;

verus! {

/// Opens the card at startup and has the geometry of the surfaces logged.
pub const DEBUG_OPEN: &'static str = "--debug-open";

/// Followed by a number, opens and closes the card that many times.
pub const DEBUG_CYCLE: &'static str = "--debug-cycle";

/// What a decimal digit counts.
pub open spec fn digit_value(c: char) -> Option<nat> {
    if '0' <= c <= '9' {
        Some((c as int - '0' as int) as nat)
    } else {
        None
    }
}

/// What a row of decimal digits counts; `None` where something else stands
/// among them.
pub open spec fn value(digits: Seq<char>) -> Option<nat>
    decreases digits.len(),
{
    if digits.len() == 0 {
        Some(0)
    } else {
        match (value(digits.drop_last()), digit_value(digits.last())) {
            (Some(front), Some(last)) => Some(front * 10 + last),
            _ => None,
        }
    }
}

/// The number that a text holds: digits, with or without a plus sign before
/// them.
pub open spec fn number(s: Seq<char>) -> Option<nat> {
    let digits = if s.len() > 0 && s[0] == '+' {
        s.skip(1)
    } else {
        s
    };
    if digits.len() == 0 {
        None
    } else {
        value(digits)
    }
}

/// A number of cycles. `None` where the text holds none, or one that doesn't
/// fit.
pub open spec fn cycles_in(s: Seq<char>) -> Option<u32> {
    match number(s) {
        Some(n) => if n <= u32::MAX {
            Some(n as u32)
        } else {
            None
        },
        None => None,
    }
}

fn read_digit(c: char) -> (d: Option<u64>)
    ensures
        match d {
            Some(d) => digit_value(c) == Some(d as nat) && d < 10,
            None => digit_value(c) is None,
        },
{
    if '0' <= c && c <= '9' {
        Some((c as u32 - '0' as u32) as u64)
    } else {
        None
    }
}

pub fn parse_cycles(s: &str) -> (cycles: Option<u32>)
    ensures
        cycles == cycles_in(s@),
{
    let chars = to_chars(s);
    let start: usize = if chars.len() > 0 && chars[0] == '+' {
        1
    } else {
        0
    };
    if chars.len() == start {
        return None;
    }
    let ghost digits = s@.skip(start as int);
    proof {
        assert(s@.skip(0) == s@);
    }
    let mut n: u64 = 0;
    let mut fits = true;
    let mut i: usize = start;
    while i < chars.len()
        invariant
            start <= i <= chars@.len(),
            chars@ == s@,
            digits == s@.skip(start as int),
            number(s@) == value(digits),
            match value(digits.take(i - start)) {
                Some(v) => if fits {
                    v == n && n <= u32::MAX
                } else {
                    v > u32::MAX
                },
                None => false,
            },
        decreases chars@.len() - i,
    {
        proof {
            let longer = digits.take(i - start + 1);
            assert(longer.drop_last() == digits.take(i - start));
            assert(longer.last() == s@[i as int]);
        }
        match read_digit(chars[i]) {
            Some(d) => {
                if fits {
                    n = n * 10 + d;
                    if n > u32::MAX as u64 {
                        fits = false;
                    }
                }
            },
            None => {
                proof {
                    lemma_no_value(digits, i - start);
                }
                return None;
            },
        }
        i = i + 1;
    }
    proof {
        assert(digits.take(i - start) == digits);
    }
    if fits {
        Some(n as u32)
    } else {
        None
    }
}

/// Digits among which something else stands count nothing.
proof fn lemma_no_value(digits: Seq<char>, at: int)
    requires
        0 <= at < digits.len(),
        digit_value(digits[at]) is None,
    ensures
        value(digits) is None,
    decreases digits.len(),
{
    if at < digits.len() - 1 {
        lemma_no_value(digits.drop_last(), at);
    }
}

/// A number of cycles that is written in decimal is read back as it was.
pub proof fn law_cycles_are_read_back(n: u32)
    ensures
        cycles_in(text::decimal(n as nat)) == Some(n),
{
    lemma_decimal_value(n as nat);
}

proof fn lemma_decimal_value(n: nat)
    ensures
        text::decimal(n).len() > 0,
        text::decimal(n)[0] != '+',
        value(text::decimal(n)) == Some(n),
    decreases n,
{
    let digits = text::decimal(n);
    if n >= 10 {
        lemma_decimal_value(n / 10);
        assert(digits.drop_last() == text::decimal(n / 10));
    } else {
        reveal_with_fuel(value, 2);
    }
}

/// What the arguments ask for.
#[derive(PartialEq, Debug)]
pub struct Options {
    pub debug_open: bool,
    pub cycles: Option<u32>,
}

/// The argument behind the first `flag`.
pub open spec fn argument_of(args: Seq<Seq<char>>, flag: Seq<char>) -> Option<Seq<char>>
    decreases args.len(),
{
    if args.len() == 0 {
        None
    } else if args[0] == flag {
        if args.len() > 1 {
            Some(args[1])
        } else {
            None
        }
    } else {
        argument_of(args.skip(1), flag)
    }
}

pub open spec fn cycles_asked(args: Seq<Seq<char>>) -> Option<u32> {
    match argument_of(args, DEBUG_CYCLE@) {
        Some(count) => cycles_in(count),
        None => None,
    }
}

pub fn options(args: &Vec<String>) -> (options: Options)
    ensures
        options.debug_open == text::texts(args@).contains(DEBUG_OPEN@),
        options.cycles == cycles_asked(text::texts(args@)),
{
    Options { debug_open: asks_to_open(args), cycles: cycles(args) }
}

fn asks_to_open(args: &Vec<String>) -> (yes: bool)
    ensures
        yes == text::texts(args@).contains(DEBUG_OPEN@),
{
    let ghost all = text::texts(args@);
    let mut i: usize = 0;
    while i < args.len()
        invariant
            i <= args@.len(),
            all == text::texts(args@),
            forall|j: int| 0 <= j < i ==> all[j] != DEBUG_OPEN@,
        decreases args@.len() - i,
    {
        if same_text(args[i].as_str(), DEBUG_OPEN) {
            proof {
                assert(all[i as int] == DEBUG_OPEN@);
            }
            return true;
        }
        i = i + 1;
    }
    false
}

fn cycles(args: &Vec<String>) -> (cycles: Option<u32>)
    ensures
        cycles == cycles_asked(text::texts(args@)),
{
    let ghost all = text::texts(args@);
    let mut i: usize = 0;
    proof {
        assert(all.skip(0) == all);
    }
    while i < args.len()
        invariant
            i <= args@.len(),
            all == text::texts(args@),
            argument_of(all, DEBUG_CYCLE@) == argument_of(all.skip(i as int), DEBUG_CYCLE@),
        decreases args@.len() - i,
    {
        proof {
            assert(all.skip(i as int)[0] == args@[i as int]@);
            assert(all.skip(i as int).skip(1) == all.skip(i + 1));
        }
        if same_text(args[i].as_str(), DEBUG_CYCLE) {
            if i + 1 < args.len() {
                proof {
                    assert(all.skip(i as int)[1] == args@[i + 1]@);
                }
                return parse_cycles(args[i + 1].as_str());
            }
            return None;
        }
        i = i + 1;
    }
    None
}

/// What the card's hover is to be at one beat of the probe.
#[derive(PartialEq, Debug)]
pub struct Beat {
    /// Whether the cursor is to be on the strip.
    pub open: bool,
    /// After how many cycles the resident memory is to be reported, where it is.
    pub report: Option<u32>,
    /// Whether that was the last.
    pub last: bool,
}

/// Opens and closes the card a number of times.
pub struct Probe {
    cycles: u32,
    remaining: u32,
    open: bool,
}

impl Probe {
    /// How many cycles were asked for.
    pub closed spec fn cycles(self) -> nat {
        self.cycles as nat
    }

    /// How many beats have been.
    pub closed spec fn beats(self) -> nat {
        (self.cycles * 2 - self.remaining) as nat
    }

    /// Whether a probe can count this many cycles in two beats each.
    pub open spec fn counts(cycles: u32) -> bool {
        cycles * 2 <= u32::MAX
    }

    pub closed spec fn wf(self) -> bool {
        &&& Probe::counts(self.cycles)
        &&& self.remaining <= self.cycles * 2
        &&& self.open == ((self.cycles * 2 - self.remaining) % 2 == 1)
    }

    pub fn accepts(cycles: u32) -> (yes: bool)
        ensures
            yes == Probe::counts(cycles),
    {
        cycles <= u32::MAX / 2
    }

    pub fn new(cycles: u32) -> (probe: Probe)
        requires
            Probe::counts(cycles),
        ensures
            probe.wf(),
            probe.cycles() == cycles,
            probe.beats() == 0,
    {
        Probe { cycles, remaining: cycles * 2, open: false }
    }

    /// Whether every cycle has been; with none asked for, that is at once.
    pub fn is_over(&self) -> (over: bool)
        requires
            self.wf(),
        ensures
            over == (self.beats() == 2 * self.cycles()),
    {
        self.remaining == 0
    }

    /// The next beat: every other one opens the card, and those between close
    /// it and report.
    pub fn beat(&mut self) -> (beat: Beat)
        requires
            old(self).wf(),
            old(self).beats() < 2 * old(self).cycles(),
        ensures
            final(self).wf(),
            final(self).cycles() == old(self).cycles(),
            final(self).beats() == old(self).beats() + 1,
            beat.open == (final(self).beats() % 2 == 1),
            beat.report == (if beat.open {
                None
            } else {
                Some((final(self).beats() / 2) as u32)
            }),
            beat.last == (final(self).beats() == 2 * final(self).cycles()),
            beat.last ==> !beat.open,
    {
        self.open = !self.open;
        let done: u32 = self.cycles * 2 - self.remaining;
        let report = if self.open {
            None
        } else {
            Some(done / 2 + done % 2)
        };
        self.remaining = self.remaining - 1;
        Beat { open: self.open, report, last: self.remaining == 0 }
    }
}

pub open spec fn stylesheet_in(home: Seq<char>) -> Seq<char> {
    text::below(home, ".config/hypr/scripts/spotify-peek/style.css"@)
}

/// The stylesheet that, where it is there, overrides the one compiled in.
pub fn stylesheet(home: &str) -> (path: String)
    ensures
        path@ == stylesheet_in(home@),
{
    path_below(home, ".config/hypr/scripts/spotify-peek/style.css")
}

/// Whether a text is made of decimal digits, one at least.
pub open spec fn all_digits(s: Seq<char>) -> bool {
    s.len() > 0 && forall|i: int| 0 <= i < s.len() ==> '0' <= #[trigger] s[i] <= '9'
}

proof fn lemma_value_is_worth(digits: Seq<char>)
    requires
        forall|i: int| 0 <= i < digits.len() ==> '0' <= #[trigger] digits[i] <= '9',
    ensures
        value(digits) == Some(worth(digits) as nat),
        worth(digits) >= 0,
    decreases digits.len(),
{
    if digits.len() > 0 {
        let front = digits.drop_last();
        assert forall|i: int| 0 <= i < front.len() implies '0' <= #[trigger] front[i] <= '9' by {
            assert(front[i] == digits[i]);
        }
        lemma_value_is_worth(front);
        assert('0' <= digits[digits.len() - 1] <= '9');
    }
}

/// Digits give the number of cycles that they are worth, where that fits, with or
/// without one plus sign before them; a text with anything else in it gives none.
pub proof fn law_cycles_are_what_the_digits_are_worth(digits: Seq<char>, s: Seq<char>)
    ensures
        all_digits(digits) && worth(digits) <= u32::MAX ==> {
            &&& cycles_in(digits) == Some(worth(digits) as u32)
            &&& cycles_in(seq!['+'] + digits) == Some(worth(digits) as u32)
        },
        all_digits(digits) && worth(digits) > u32::MAX ==> cycles_in(digits) is None && cycles_in(
            seq!['+'] + digits,
        ) is None,
        !all_digits(s) && !(s.len() > 0 && s[0] == '+' && all_digits(s.skip(1))) ==> cycles_in(
            s,
        ) is None,
{
    if all_digits(digits) {
        lemma_value_is_worth(digits);
        let signed = seq!['+'] + digits;
        assert(signed.skip(1) == digits);
        assert('0' <= digits[0] <= '9');
    }
    let rest = if s.len() > 0 && s[0] == '+' {
        s.skip(1)
    } else {
        s
    };
    if rest.len() > 0 && !all_digits(rest) {
        let at = choose|i: int| 0 <= i < rest.len() && !('0' <= #[trigger] rest[i] <= '9');
        lemma_no_value(rest, at);
    }
    if s.len() > 0 && s[0] == '+' {
        assert(!all_digits(s));
    }
}

/// The argument of a flag is the one behind its first occurrence, if there is one.
pub proof fn law_an_argument_follows_its_flag(args: Seq<Seq<char>>, flag: Seq<char>, at: int)
    requires
        0 <= at <= args.len(),
        forall|i: int| 0 <= i < at ==> #[trigger] args[i] != flag,
        at < args.len() ==> args[at] == flag,
    ensures
        at + 1 < args.len() ==> argument_of(args, flag) == Some(args[at + 1]),
        at + 1 >= args.len() ==> argument_of(args, flag) is None,
    decreases args.len(),
{
    if args.len() > 0 && at > 0 {
        let rest = args.skip(1);
        assert(args[0] != flag);
        assert forall|i: int| 0 <= i < at - 1 implies #[trigger] rest[i] != flag by {
            assert(rest[i] == args[i + 1]);
        }
        law_an_argument_follows_its_flag(rest, flag, at - 1);
    }
}

/// The cycles asked for are what the argument of their flag says.
pub proof fn law_cycles_are_asked_for_by_flag(args: Seq<Seq<char>>)
    ensures
        argument_of(args, "--debug-cycle"@) matches Some(count) ==> cycles_asked(args) == cycles_in(
            count,
        ),
        argument_of(args, "--debug-cycle"@) is None ==> cycles_asked(args) is None,
        DEBUG_OPEN@ == "--debug-open"@,
{
}

/// A probe counts every number of cycles whose double fits thirty-two bits.
pub proof fn law_a_probe_counts_what_fits(cycles: u32)
    ensures
        Probe::counts(cycles) <==> cycles <= 2147483647,
{
}

/// The stylesheet lies at this place below the user's home.
pub proof fn law_the_stylesheet_lies_below_home(home: Seq<char>)
    requires
        home.len() > 0,
        home.last() != '/',
    ensures
        stylesheet_in(home) == home + "/.config/hypr/scripts/spotify-peek/style.css"@,
        stylesheet_in(home.push('/')) == home + "/.config/hypr/scripts/spotify-peek/style.css"@,
{
    reveal_strlit(".config/hypr/scripts/spotify-peek/style.css");
    reveal_strlit("/.config/hypr/scripts/spotify-peek/style.css");
    assert(home.push('/') + ".config/hypr/scripts/spotify-peek/style.css"@ == home
        + "/.config/hypr/scripts/spotify-peek/style.css"@);
}

} // verus!
