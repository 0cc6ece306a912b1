//! The event-source adapters: the bounded synthetic counter source, fully
//! implemented and verified here, and the per-line handling that an external
//! line stream's receive loop performs between its blocking receives.

use vstd::prelude::*;
use vstd::string::StringExecFns;

use crate::envelope::Color;
use crate::envelope::Comment;
use crate::envelope::views_of;
use crate::lifecycle::Mode;
use crate::lifecycle::Notifier;

verus! {

/// The character for one decimal digit.
pub open spec fn digit_char(d: nat) -> char {
    if d == 0 {
        '0'
    } else if d == 1 {
        '1'
    } else if d == 2 {
        '2'
    } else if d == 3 {
        '3'
    } else if d == 4 {
        '4'
    } else if d == 5 {
        '5'
    } else if d == 6 {
        '6'
    } else if d == 7 {
        '7'
    } else if d == 8 {
        '8'
    } else {
        '9'
    }
}

/// The decimal digits of `n`, most significant first, no leading zeros
/// (except for `n == 0` itself).
pub open spec fn decimal_of(n: nat) -> Seq<char>
    decreases n,
{
    if n < 10 {
        seq![digit_char(n)]
    } else {
        decimal_of(n / 10).push(digit_char(n % 10))
    }
}

/// A one-character string slice holding the given decimal digit.
fn digit_str(d: u64) -> (r: &'static str)
    requires
        d < 10,
    ensures
        r@ == seq![digit_char(d as nat)],
{
    proof {
        reveal_strlit("0");
        reveal_strlit("1");
        reveal_strlit("2");
        reveal_strlit("3");
        reveal_strlit("4");
        reveal_strlit("5");
        reveal_strlit("6");
        reveal_strlit("7");
        reveal_strlit("8");
        reveal_strlit("9");
        assert("0"@ =~= seq![digit_char(0)]);
        assert("1"@ =~= seq![digit_char(1)]);
        assert("2"@ =~= seq![digit_char(2)]);
        assert("3"@ =~= seq![digit_char(3)]);
        assert("4"@ =~= seq![digit_char(4)]);
        assert("5"@ =~= seq![digit_char(5)]);
        assert("6"@ =~= seq![digit_char(6)]);
        assert("7"@ =~= seq![digit_char(7)]);
        assert("8"@ =~= seq![digit_char(8)]);
        assert("9"@ =~= seq![digit_char(9)]);
    }
    if d == 0 {
        "0"
    } else if d == 1 {
        "1"
    } else if d == 2 {
        "2"
    } else if d == 3 {
        "3"
    } else if d == 4 {
        "4"
    } else if d == 5 {
        "5"
    } else if d == 6 {
        "6"
    } else if d == 7 {
        "7"
    } else if d == 8 {
        "8"
    } else {
        "9"
    }
}

/// Appends the decimal digits of `n` to `out`.
pub fn push_decimal(out: &mut String, n: u64)
    ensures
        final(out)@ == old(out)@ + decimal_of(n as nat),
    decreases n,
{
    if n < 10 {
        out.append(digit_str(n));
    } else {
        let ghost before = out@;
        push_decimal(out, n / 10);
        out.append(digit_str(n % 10));
        proof {
            assert(out@ =~= before + decimal_of(n as nat));
        }
    }
}

/// Text of the counter line for index `i`: `#` followed by `i` in decimal.
pub open spec fn counter_text(i: nat) -> Seq<char> {
    seq!['#'] + decimal_of(i)
}

/// Builds the counter line for index `i`.
pub fn counter_line(i: u64) -> (r: String)
    ensures
        r@ == counter_text(i as nat),
{
    let mut s = String::from_str("#");
    proof {
        reveal_strlit("#");
        assert(s@ =~= seq!['#']);
    }
    push_decimal(&mut s, i);
    s
}

/// Text of the startup banner: it announces the notifier's protocol
/// revision.
pub open spec fn startup_text() -> Seq<char> {
    "Notifier v"@ + decimal_of(3) + " started"@
}

/// Builds the startup banner line, announcing the current `version`.
pub fn startup_line() -> (r: String)
    ensures
        r@ == startup_text(),
{
    let mut s = String::from_str("Notifier v");
    push_decimal(&mut s, crate::lifecycle::version());
    s.append(" started");
    s
}

/// Color of the synthetic source's startup banner.
pub open spec fn synthetic_startup_color() -> Color {
    Color(40, 40, 255)
}

/// Color of the synthetic source's counter lines.
pub open spec fn synthetic_counter_color() -> Color {
    Color(40, 255, 40)
}

/// Color of the external source's startup and connection banners.
pub open spec fn external_banner_color() -> Color {
    Color(127, 127, 255)
}

/// Color of an envelope wrapping a received external line.
pub open spec fn external_message_color() -> Color {
    Color(255, 192, 127)
}

/// Text of the external source's connection-confirmation banner.
pub open spec fn connected_text() -> Seq<char> {
    "Connected to #cc.ru as ProgramCrafter"@
}

/// Builds the synthetic source's startup envelope.
pub fn synthetic_startup_comment() -> (c: Comment)
    ensures
        c@ == (startup_text(), synthetic_startup_color()),
{
    Comment { text: startup_line(), color: Color(40, 40, 255) }
}

/// Builds the external source's startup envelope.
pub fn external_startup_comment() -> (c: Comment)
    ensures
        c@ == (startup_text(), external_banner_color()),
{
    Comment { text: startup_line(), color: Color(127, 127, 255) }
}

/// Builds the external source's connection-confirmation envelope.
pub fn connected_comment() -> (c: Comment)
    ensures
        c@ == (connected_text(), external_banner_color()),
{
    Comment {
        text: String::from_str("Connected to #cc.ru as ProgramCrafter"),
        color: Color(127, 127, 255),
    }
}

/// Wraps one received external line into its envelope.
pub fn message_comment(line: String) -> (c: Comment)
    ensures
        c@ == (line@, external_message_color()),
{
    Comment { text: line, color: Color(255, 192, 127) }
}

/// Everything the synthetic source delivers when it runs through `count`
/// counter lines: the startup banner, then `#0` .. `#(count-1)` in order.
pub open spec fn synthetic_events(count: nat) -> Seq<(Seq<char>, Color)> {
    seq![(startup_text(), synthetic_startup_color())] + Seq::new(
        count,
        |i: int| (counter_text(i as nat), synthetic_counter_color()),
    )
}

/// What a synthetic run over `count` counter lines actually delivers, given
/// the state of the cancellation flag at its start: everything when the
/// worker may keep running, only the startup banner when cancellation was
/// already signalled (the flag is checked between events, after the banner
/// and before each counter line).
pub open spec fn synthetic_delivered(count: nat, keep: bool) -> Seq<(Seq<char>, Color)> {
    if keep {
        synthetic_events(count)
    } else {
        synthetic_events(0)
    }
}

/// The synthetic worker loop: delivers the startup banner, then up to
/// `count` counter lines in order, checking the cooperative-cancellation
/// flag before each counter line. Push-mode deliveries land in `sink` (the
/// record of the host callback's invocations); pull-mode deliveries
/// accumulate in the notifier's queue and `sink` is untouched.
pub fn run_synthetic(n: &mut Notifier, count: u64, sink: &mut Vec<Comment>)
    requires
        old(n).wf(),
        old(n).is_running(),
    ensures
        final(n).wf(),
        final(n).is_running(),
        final(n).mode() == old(n).mode(),
        final(n).keep_running() == old(n).keep_running(),
        final(n).workers_started() == old(n).workers_started(),
        final(n).workers_joined() == old(n).workers_joined(),
        final(n).drained() == old(n).drained(),
        final(n).produced() == old(n).produced() + synthetic_delivered(
            count as nat,
            old(n).keep_running(),
        ),
        old(n).mode() == Mode::Push ==> final(n).queue_comments() == old(n).queue_comments()
            && views_of(final(sink)@) == views_of(old(sink)@) + synthetic_delivered(
            count as nat,
            old(n).keep_running(),
        ),
        old(n).mode() == Mode::Pull ==> final(sink)@ == old(sink)@ && final(n).queue_model()
            == old(n).queue_model() + synthetic_delivered(count as nat, old(n).keep_running()),
{
    let banner = synthetic_startup_comment();
    match n.put_comment(banner) {
        Some(c) => sink.push(c),
        None => {},
    }
    proof {
        assert(old(n).produced() + synthetic_events(0) =~= old(n).produced().push(
            (startup_text(), synthetic_startup_color()),
        ));
        if old(n).mode() == Mode::Push {
            assert(views_of(sink@) =~= views_of(old(sink)@) + synthetic_events(0));
        } else {
            assert(n.queue_model() =~= old(n).queue_model() + synthetic_events(0));
        }
    }
    let mut i: u64 = 0;
    while i < count && n.should_continue()
        invariant
            n.wf(),
            n.is_running(),
            n.mode() == old(n).mode(),
            n.keep_running() == old(n).keep_running(),
            n.workers_started() == old(n).workers_started(),
            n.workers_joined() == old(n).workers_joined(),
            n.drained() == old(n).drained(),
            i <= count,
            !old(n).keep_running() ==> i == 0,
            n.produced() == old(n).produced() + synthetic_events(i as nat),
            old(n).mode() == Mode::Push ==> n.queue_comments() == old(n).queue_comments()
                && views_of(sink@) == views_of(old(sink)@) + synthetic_events(i as nat),
            old(n).mode() == Mode::Pull ==> sink@ == old(sink)@ && n.queue_model() == old(
                n,
            ).queue_model() + synthetic_events(i as nat),
        decreases count - i,
    {
        let ghost mid_queue = n.queue_model();
        let ghost mid_sink = views_of(sink@);
        let (handed, _) = synthetic_step(n, i);
        match handed {
            Some(c) => sink.push(c),
            None => {},
        }
        proof {
            assert(n.produced() =~= old(n).produced() + synthetic_events((i + 1) as nat));
            if old(n).mode() == Mode::Push {
                assert(views_of(sink@) =~= mid_sink.push(
                    (counter_text(i as nat), synthetic_counter_color()),
                ));
                assert(views_of(sink@) =~= views_of(old(sink)@) + synthetic_events(
                    (i + 1) as nat,
                ));
            } else {
                assert(n.queue_model() =~= mid_queue.push(
                    (counter_text(i as nat), synthetic_counter_color()),
                ));
                assert(n.queue_model() =~= old(n).queue_model() + synthetic_events(
                    (i + 1) as nat,
                ));
            }
        }
        i = i + 1;
    }
}

/// One step of the synthetic producer loop, performed between two pacing
/// delays: the cooperative-cancellation flag is checked first. While
/// cancellation was not signalled, counter line `i` is produced and
/// delivered and the loop may continue; once it was, nothing is produced,
/// nothing changes, and the loop must exit.
pub fn synthetic_step(n: &mut Notifier, i: u64) -> (r: (Option<Comment>, bool))
    requires
        old(n).wf(),
        old(n).is_running(),
    ensures
        final(n).wf(),
        final(n).is_running(),
        final(n).mode() == old(n).mode(),
        final(n).keep_running() == old(n).keep_running(),
        final(n).workers_started() == old(n).workers_started(),
        final(n).workers_joined() == old(n).workers_joined(),
        final(n).drained() == old(n).drained(),
        r.1 == old(n).keep_running(),
        !old(n).keep_running() ==> *final(n) == *old(n) && r.0 is None,
        old(n).keep_running() ==> final(n).produced() == old(n).produced().push(
            (counter_text(i as nat), synthetic_counter_color()),
        ),
        old(n).keep_running() && old(n).mode() == Mode::Pull ==> r.0 is None
            && final(n).queue_model() == old(n).queue_model().push(
            (counter_text(i as nat), synthetic_counter_color()),
        ),
        old(n).keep_running() && old(n).mode() == Mode::Push ==> r.0 is Some && r.0.unwrap()@ == (
            counter_text(i as nat),
            synthetic_counter_color(),
        ) && final(n).queue_comments() == old(n).queue_comments(),
{
    if !n.should_continue() {
        return (None, false);
    }
    let event = Comment { text: counter_line(i), color: Color(40, 255, 40) };
    let handed = n.put_comment(event);
    proof {
        if old(n).mode() == Mode::Pull {
            assert(n.queue_model() =~= old(n).queue_model().push(
                (counter_text(i as nat), synthetic_counter_color()),
            ));
        }
    }
    (handed, true)
}

/// One step of the external receive loop, performed between two blocking
/// receives: the cooperative-cancellation flag is checked first, before the
/// line is processed. While cancellation was not signalled, the line is
/// wrapped and delivered and the loop may continue; once it was, the line is
/// not delivered at all, nothing changes, and the loop must exit. A worker
/// already blocked on a receive only reaches this step once its next line
/// arrives, so that line is the last chance to observe the signal.
pub fn handle_external_line(n: &mut Notifier, line: String) -> (r: (Option<Comment>, bool))
    requires
        old(n).wf(),
        old(n).is_running(),
    ensures
        final(n).wf(),
        final(n).is_running(),
        final(n).mode() == old(n).mode(),
        final(n).keep_running() == old(n).keep_running(),
        final(n).workers_started() == old(n).workers_started(),
        final(n).workers_joined() == old(n).workers_joined(),
        final(n).drained() == old(n).drained(),
        r.1 == old(n).keep_running(),
        !old(n).keep_running() ==> *final(n) == *old(n) && r.0 is None,
        old(n).keep_running() ==> final(n).produced() == old(n).produced().push(
            (line@, external_message_color()),
        ),
        old(n).keep_running() && old(n).mode() == Mode::Pull ==> r.0 is None
            && final(n).queue_model() == old(n).queue_model().push(
            (line@, external_message_color()),
        ),
        old(n).keep_running() && old(n).mode() == Mode::Push ==> r.0 is Some && r.0.unwrap()@ == (
            line@,
            external_message_color(),
        ) && final(n).queue_comments() == old(n).queue_comments(),
{
    if !n.should_continue() {
        return (None, false);
    }
    let event = message_comment(line);
    let handed = n.put_comment(event);
    proof {
        if old(n).mode() == Mode::Pull {
            assert(n.queue_model() =~= old(n).queue_model().push(
                (line@, external_message_color()),
            ));
        }
    }
    (handed, true)
}

} // verus!
