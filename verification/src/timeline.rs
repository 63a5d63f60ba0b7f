//! The message timeline: day separators, and messages grouped under their author.

use vstd::prelude::*;
use vstd::string::*;

use crate::client::TimelineMessage;
use crate::clock;
use crate::clock::LocalTime;
use crate::theme::Color;
use crate::widgets;
use crate::widgets::Avatar;
use crate::widgets::Line;
use crate::widgets::Tone;

verus! {

/// A row of the timeline.
#[derive(Debug, PartialEq, Eq)]
pub enum TimelineRow {
    /// A separator: what follows was sent on another day.
    Day(Line),
    /// A message with its author and time above it.
    First { avatar: Avatar, sender: Line, time: Line, message: Line },
    /// A further message of the same author.
    Next { message: Line },
}

/// What a row says.
pub enum RowText {
    Day(Seq<char>),
    First { initial: Seq<char>, color: Color, sender: Seq<char>, time: Seq<char>, body: Seq<char> },
    Next(Seq<char>),
}

impl TimelineRow {
    /// The sizes and tones of the row's texts.
    pub open spec fn is_styled(self) -> bool {
        match self {
            TimelineRow::Day(day) => day.size == 12 && day.tone == Tone::Muted,
            TimelineRow::First { avatar: _, sender, time, message } => {
                &&& sender.size == 13 && sender.tone == Tone::Accent
                &&& time.size == 11 && time.tone == Tone::Muted
                &&& message.size == 14 && message.tone == Tone::Text
            },
            TimelineRow::Next { message } => message.size == 14 && message.tone == Tone::Text,
        }
    }

    pub open spec fn says(self) -> RowText {
        match self {
            TimelineRow::Day(day) => RowText::Day(day.content@),
            TimelineRow::First { avatar, sender, time, message } => RowText::First {
                initial: avatar.initial@,
                color: avatar.color,
                sender: sender.content@,
                time: time.content@,
                body: message.content@,
            },
            TimelineRow::Next { message } => RowText::Next(message.content@),
        }
    }
}

/// The last known day among the first `n` times.
pub open spec fn last_day(times: Seq<Option<LocalTime>>, n: int) -> Option<int>
    decreases n,
{
    if n <= 0 {
        None
    } else {
        match times[n - 1] {
            Some(t) => Some(t.day as int),
            None => last_day(times, n - 1),
        }
    }
}

/// Message `i` is the first one on its day: its day is known and not the last
/// known one.
pub open spec fn opens_day(times: Seq<Option<LocalTime>>, i: int) -> bool {
    times[i] matches Some(t) && last_day(times, i) != Some(t.day as int)
}

/// Message `i` starts a group: it opens a day or has another author than the one
/// before it.
pub open spec fn opens_group(
    messages: Seq<TimelineMessage>,
    times: Seq<Option<LocalTime>>,
    i: int,
) -> bool {
    opens_day(times, i) || i == 0 || messages[i].sender@ != messages[i - 1].sender@
}

/// The time of day shown with a message, empty where it is not known.
pub open spec fn time_text(t: Option<LocalTime>) -> Seq<char> {
    match t {
        Some(local) => clock::clock_text(local),
        None => Seq::empty(),
    }
}

/// What the separator in front of message `i` says, if it has one.
pub open spec fn separator(times: Seq<Option<LocalTime>>, today: int, i: int) -> Seq<RowText> {
    if opens_day(times, i) {
        seq![RowText::Day(clock::day_text(times[i]->0.day as int, today))]
    } else {
        Seq::empty()
    }
}

/// What the row of message `i` says.
pub open spec fn message_row(
    messages: Seq<TimelineMessage>,
    times: Seq<Option<LocalTime>>,
    i: int,
) -> RowText {
    if opens_group(messages, times, i) {
        RowText::First {
            initial: widgets::initial_of(messages[i].sender_name@),
            color: widgets::color_of_name(messages[i].sender_name@),
            sender: messages[i].sender_name@,
            time: time_text(times[i]),
            body: messages[i].body@,
        }
    } else {
        RowText::Next(messages[i].body@)
    }
}

/// What the rows of the first `n` messages say: each message in turn, a separator
/// in front of those that open a day.
pub open spec fn shown(
    messages: Seq<TimelineMessage>,
    times: Seq<Option<LocalTime>>,
    today: int,
    n: int,
) -> Seq<RowText>
    decreases n,
{
    if n <= 0 {
        Seq::empty()
    } else {
        shown(messages, times, today, n - 1) + separator(times, today, n - 1) + seq![
            message_row(messages, times, n - 1),
        ]
    }
}

/// What some rows say.
pub open spec fn row_texts(rows: Seq<TimelineRow>) -> Seq<RowText> {
    rows.map_values(|row: TimelineRow| row.says())
}

/// `rows` is the timeline of these messages, sent at these local times and read
/// on this day.
pub open spec fn is_timeline(
    rows: Seq<TimelineRow>,
    messages: Seq<TimelineMessage>,
    times: Seq<Option<LocalTime>>,
    today: int,
) -> bool {
    &&& row_texts(rows) == shown(messages, times, today, messages.len() as int)
    &&& forall|i: int| 0 <= i < rows.len() ==> (#[trigger] rows[i]).is_styled()
}

/// The local times of some messages, as far as they are known.
pub open spec fn are_times(times: Seq<Option<LocalTime>>, messages: Seq<TimelineMessage>) -> bool {
    &&& times.len() == messages.len()
    &&& forall|i: int|
        0 <= i < times.len() ==> clock::is_local_time(
            #[trigger] times[i],
            messages[i].timestamp_ms as i64 as int,
        )
}

fn time_label(t: Option<LocalTime>) -> (r: String)
    requires
        t matches Some(local) ==> local.wf(),
    ensures
        r@ == time_text(t),
{
    match t {
        Some(local) => clock::clock_label(local),
        None => String::new(),
    }
}

/// The rows of a timeline, for messages sent at these local times and read on
/// this day.
pub fn timeline_rows(
    messages: &Vec<TimelineMessage>,
    times: &Vec<Option<LocalTime>>,
    today: i32,
) -> (rows: Vec<TimelineRow>)
    requires
        times.len() == messages.len(),
        forall|i: int|
            0 <= i < times.len() ==> ((#[trigger] times@[i]) matches Some(local) ==> local.wf()),
        clock::is_day(today as int),
    ensures
        is_timeline(rows@, messages@, times@, today as int),
{
    let mut rows: Vec<TimelineRow> = Vec::new();
    let mut previous_day: Option<i32> = None;
    let mut i: usize = 0;
    assert(row_texts(rows@) =~= Seq::empty());
    while i < messages.len()
        invariant
            i <= messages.len(),
            times.len() == messages.len(),
            forall|k: int|
                0 <= k < times.len() ==> ((#[trigger] times@[k]) matches Some(local)
                    ==> local.wf()),
            clock::is_day(today as int),
            match previous_day {
                Some(day) => last_day(times@, i as int) == Some(day as int),
                None => last_day(times@, i as int) is None,
            },
            row_texts(rows@) == shown(messages@, times@, today as int, i as int),
            forall|k: int| 0 <= k < rows.len() ==> (#[trigger] rows@[k]).is_styled(),
        decreases messages.len() - i,
    {
        let ghost before = rows@;
        let time: Option<LocalTime> = times[i];
        assert(times@[i as int] == time);
        let mut day_changed = false;
        if let Some(local) = time {
            if previous_day != Some(local.day) {
                previous_day = Some(local.day);
                day_changed = true;
                rows.push(
                    TimelineRow::Day(
                        Line::new(clock::day_label(local.day, today), 12, Tone::Muted),
                    ),
                );
            }
        }
        assert(day_changed == opens_day(times@, i as int));
        assert(row_texts(rows@) =~= row_texts(before) + separator(
            times@,
            today as int,
            i as int,
        ));
        let ghost parted = rows@;
        let message = &messages[i];
        let body = Line::of(message.body.as_str(), 14, Tone::Text);
        // A new author (or a new day) starts a fresh group with avatar and header;
        // consecutive messages from the same author are indented under it.
        if day_changed || i == 0 || !message.sender.same(&messages[i - 1].sender) {
            rows.push(
                TimelineRow::First {
                    avatar: widgets::avatar(message.sender_name.as_str()),
                    sender: Line::of(message.sender_name.as_str(), 13, Tone::Accent),
                    time: Line::new(time_label(time), 11, Tone::Muted),
                    message: body,
                },
            );
        } else {
            rows.push(TimelineRow::Next { message: body });
        }
        assert(row_texts(rows@) =~= row_texts(parted) + seq![
            message_row(messages@, times@, i as int),
        ]);
        i += 1;
    }
    rows
}

/// The rows of a timeline as this machine's clock and time zone have it.
pub fn timeline_view(messages: &Vec<TimelineMessage>) -> (rows: Vec<TimelineRow>)
    ensures
        exists|times: Seq<Option<LocalTime>>, today: int|
            are_times(times, messages@) && clock::is_day(today) && #[trigger] is_timeline(
                rows@,
                messages@,
                times,
                today,
            ),
{
    let mut times: Vec<Option<LocalTime>> = Vec::new();
    while times.len() < messages.len()
        invariant
            times.len() <= messages.len(),
            forall|i: int|
                0 <= i < times.len() ==> clock::is_local_time(
                    #[trigger] times@[i],
                    messages@[i].timestamp_ms as i64 as int,
                ),
        decreases messages.len() - times.len(),
    {
        let next: usize = times.len();
        times.push(clock::local_time(messages[next].timestamp_ms));
    }
    let rows = timeline_rows(messages, &times, clock::today());
    assert(are_times(times@, messages@));
    rows
}

// ---------------------------------------------------------------------------
// Laws

/// The messages among some rows.
pub open spec fn bodies(rows: Seq<RowText>) -> Seq<Seq<char>>
    decreases rows.len(),
{
    if rows.len() == 0 {
        Seq::empty()
    } else {
        bodies(rows.drop_last()) + match rows.last() {
            RowText::Day(_) => Seq::empty(),
            RowText::First { initial: _, color: _, sender: _, time: _, body } => seq![body],
            RowText::Next(body) => seq![body],
        }
    }
}

/// Every message of the timeline is shown, each once and in order.
pub proof fn every_message_is_shown_once(
    messages: Seq<TimelineMessage>,
    times: Seq<Option<LocalTime>>,
    today: int,
    n: int,
)
    requires
        0 <= n <= messages.len(),
    ensures
        bodies(shown(messages, times, today, n)) == messages.take(n).map_values(
            |m: TimelineMessage| m.body@,
        ),
    decreases n,
{
    let all = shown(messages, times, today, n);
    let want = messages.take(n).map_values(|m: TimelineMessage| m.body@);
    if n == 0 {
        assert(want =~= Seq::empty());
    } else {
        every_message_is_shown_once(messages, times, today, n - 1);
        let before = shown(messages, times, today, n - 1);
        let part = separator(times, today, n - 1);
        assert(all.drop_last() =~= before + part);
        if part.len() > 0 {
            assert((before + part).drop_last() =~= before);
        } else {
            assert(before + part =~= before);
        }
        assert(bodies(before + part) =~= bodies(before));
        let earlier = messages.take(n - 1).map_values(|m: TimelineMessage| m.body@);
        assert(want =~= earlier + seq![messages[n - 1].body@]);
    }
}

/// Behind a day separator a message follows, with its author and time: no group
/// runs on across a separator, and none stands at the end.
pub proof fn a_separator_is_followed_by_a_group(
    messages: Seq<TimelineMessage>,
    times: Seq<Option<LocalTime>>,
    today: int,
    n: int,
    k: int,
)
    requires
        0 <= n <= messages.len(),
        0 <= k < shown(messages, times, today, n).len(),
        shown(messages, times, today, n)[k] is Day,
    ensures
        k + 1 < shown(messages, times, today, n).len(),
        shown(messages, times, today, n)[k + 1] is First,
    decreases n,
{
    if n > 0 {
        let before = shown(messages, times, today, n - 1);
        if k < before.len() {
            assert(shown(messages, times, today, n)[k] == before[k]);
            a_separator_is_followed_by_a_group(messages, times, today, n - 1, k);
            assert(shown(messages, times, today, n)[k + 1] == before[k + 1]);
        }
    }
}

/// Two messages in a row, of one author and on one day, stand under one header.
pub proof fn one_author_on_one_day_is_one_group(
    messages: Seq<TimelineMessage>,
    times: Seq<Option<LocalTime>>,
    i: int,
)
    requires
        1 <= i < messages.len(),
        times.len() == messages.len(),
        messages[i].sender@ == messages[i - 1].sender@,
        times[i - 1] matches Some(a) && times[i] matches Some(b) && a.day == b.day,
    ensures
        message_row(messages, times, i) == RowText::Next(messages[i].body@),
{
}

/// What a row says is what is written on it: the day; or the author, the time and the
/// message, beside the avatar; or the message alone.
pub proof fn a_row_says_what_is_written_on_it(row: TimelineRow)
    ensures
        row matches TimelineRow::Day(day) ==> row.says() == RowText::Day(day.content@),
        row matches TimelineRow::First { avatar, sender, time, message } ==> (row.says()
            matches RowText::First { initial, color, sender: by, time: at, body } && initial
            == avatar.initial@ && color == avatar.color && by == sender.content@ && at
            == time.content@ && body == message.content@),
        row matches TimelineRow::Next { message } ==> row.says() == RowText::Next(message.content@),
{
}

/// The last row of a timeline is that of its last message, and the rows before it are
/// those of the messages before it, with a separator in between or none.
pub proof fn a_new_message_comes_at_the_end(
    messages: Seq<TimelineMessage>,
    times: Seq<Option<LocalTime>>,
    today: int,
    n: int,
)
    requires
        0 < n <= messages.len(),
    ensures
        ({
            let all = shown(messages, times, today, n);
            let before = shown(messages, times, today, n - 1);
            &&& all.len() == before.len() + 1 || all.len() == before.len() + 2
            &&& all.take(before.len() as int) == before
            &&& all.len() == before.len() + 2 ==> all[before.len() as int] is Day
            &&& match all.last() {
                RowText::Day(_) => false,
                RowText::First { initial: _, color: _, sender, time: _, body } => {
                    &&& sender == messages[n - 1].sender_name@
                    &&& body == messages[n - 1].body@
                },
                RowText::Next(body) => body == messages[n - 1].body@,
            }
        }),
        shown(messages, times, today, 0).len() == 0,
{
    let all = shown(messages, times, today, n);
    let before = shown(messages, times, today, n - 1);
    assert(all.take(before.len() as int) =~= before);
    assert(all.last() == message_row(messages, times, n - 1));
}

/// A message of another author than the one before it, and the first message of all,
/// stand under a header: with the author's name and avatar, and the time of day where it
/// is known.
pub proof fn another_author_gets_a_header(
    messages: Seq<TimelineMessage>,
    times: Seq<Option<LocalTime>>,
    i: int,
)
    requires
        0 <= i < messages.len(),
        i > 0 ==> messages[i].sender@ != messages[i - 1].sender@,
    ensures
        message_row(messages, times, i) matches RowText::First { initial, color, sender, time, body }
            && sender == messages[i].sender_name@ && body == messages[i].body@ && initial
            == widgets::initial_of(messages[i].sender_name@) && color == widgets::color_of_name(
            messages[i].sender_name@,
        ) && (times[i] matches Some(local) ==> time == clock::clock_text(local)) && (times[i]
            is None ==> time.len() == 0),
{
}

/// A message stands without a header only below one of the same author, on a day that
/// has begun.
pub proof fn only_the_same_author_goes_without_a_header(
    messages: Seq<TimelineMessage>,
    times: Seq<Option<LocalTime>>,
    i: int,
)
    requires
        0 <= i < messages.len(),
        message_row(messages, times, i) is Next,
    ensures
        i > 0 && messages[i].sender@ == messages[i - 1].sender@,
        message_row(messages, times, i) == RowText::Next(messages[i].body@),
        separator(times, 0, i).len() == 0,
{
}

/// A new day is announced: where the days of two messages in a row differ, a separator
/// names the day of the second one, as seen from today, and a header follows. On the
/// same day, or where the time is not known, there is none.
pub proof fn a_new_day_is_announced(
    messages: Seq<TimelineMessage>,
    times: Seq<Option<LocalTime>>,
    today: int,
    i: int,
)
    requires
        0 < i < messages.len(),
        times.len() == messages.len(),
        times[i - 1] is Some,
    ensures
        times[i] matches Some(now) && now.day != (times[i - 1]->0).day ==> separator(
            times,
            today,
            i,
        ) == seq![RowText::Day(clock::day_text((times[i]->0).day as int, today))] && message_row(
            messages,
            times,
            i,
        ) is First,
        times[i] matches Some(now) && now.day == (times[i - 1]->0).day ==> separator(
            times,
            today,
            i,
        ).len() == 0,
        times[i] is None ==> separator(times, today, i).len() == 0,
{
}

/// The first message whose day is known is announced, and a gap of unknown times is
/// bridged: a day that was announced last is not announced again.
pub proof fn a_day_is_announced_once(times: Seq<Option<LocalTime>>, today: int, i: int, k: int)
    requires
        0 <= k < i < times.len(),
        times[k] is Some,
        times[i] is Some,
        forall|j: int| k < j < i ==> (#[trigger] times[j]) is None,
    ensures
        separator(times, today, i).len() == 0 <==> (times[i]->0).day == (times[k]->0).day,
        (forall|j: int| 0 <= j < k ==> (#[trigger] times[j]) is None) ==> separator(
            times,
            today,
            k,
        ) == seq![RowText::Day(clock::day_text((times[k]->0).day as int, today))],
{
    lemma_last_day(times, i, k);
    if forall|j: int| 0 <= j < k ==> (#[trigger] times[j]) is None {
        lemma_no_day(times, k);
    }
}

proof fn lemma_last_day(times: Seq<Option<LocalTime>>, n: int, k: int)
    requires
        0 <= k < n <= times.len(),
        times[k] is Some,
        forall|j: int| k < j < n ==> (#[trigger] times[j]) is None,
    ensures
        last_day(times, n) == Some((times[k]->0).day as int),
    decreases n,
{
    if n - 1 > k {
        assert(times[n - 1] is None);
        lemma_last_day(times, n - 1, k);
    }
}

proof fn lemma_no_day(times: Seq<Option<LocalTime>>, n: int)
    requires
        0 <= n <= times.len(),
        forall|j: int| 0 <= j < n ==> (#[trigger] times[j]) is None,
    ensures
        last_day(times, n) is None,
    decreases n,
{
    if n > 0 {
        assert(times[n - 1] is None);
        lemma_no_day(times, n - 1);
    }
}

/// The rows of a timeline say in their order what it shows: every message once, in order.
/// Messages have the color of text, authors the accent color; days and times are muted.
pub proof fn a_timeline_shows_its_messages(
    rows: Seq<TimelineRow>,
    messages: Seq<TimelineMessage>,
    times: Seq<Option<LocalTime>>,
    today: int,
)
    requires
        is_timeline(rows, messages, times, today),
    ensures
        bodies(rows.map_values(|row: TimelineRow| row.says())) == messages.map_values(
            |m: TimelineMessage| m.body@,
        ),
        rows.len() >= messages.len(),
        messages.len() == 0 ==> rows.len() == 0,
        forall|i: int|
            0 <= i < rows.len() ==> match #[trigger] rows[i] {
                TimelineRow::Day(day) => day.tone is Muted,
                TimelineRow::First { avatar: _, sender, time, message } => sender.tone is Accent
                    && time.tone is Muted && message.tone is Text,
                TimelineRow::Next { message } => message.tone is Text,
            },
{
    let n = messages.len() as int;
    every_message_is_shown_once(messages, times, today, n);
    assert(messages.take(n) =~= messages);
    lemma_rows_hold_messages(messages, times, today, n);
    assert(row_texts(rows).len() == rows.len());
    assert forall|i: int| 0 <= i < rows.len() implies match #[trigger] rows[i] {
        TimelineRow::Day(day) => day.tone is Muted,
        TimelineRow::First { avatar: _, sender, time, message } => sender.tone is Accent
            && time.tone is Muted && message.tone is Text,
        TimelineRow::Next { message } => message.tone is Text,
    } by {
        assert(rows[i].is_styled());
    }
}

proof fn lemma_rows_hold_messages(
    messages: Seq<TimelineMessage>,
    times: Seq<Option<LocalTime>>,
    today: int,
    n: int,
)
    requires
        0 <= n <= messages.len(),
    ensures
        shown(messages, times, today, n).len() >= n,
    decreases n,
{
    if n > 0 {
        lemma_rows_hold_messages(messages, times, today, n - 1);
    }
}

/// The time shown with a message is the one it was sent at, as some time zone has it: it is
/// off by a day at most. It is known for a million days from the epoch on.
pub proof fn messages_are_shown_at_their_time(
    times: Seq<Option<LocalTime>>,
    messages: Seq<TimelineMessage>,
    i: int,
)
    requires
        are_times(times, messages),
        0 <= i < messages.len(),
        0 <= messages[i].timestamp_ms < 1_000_000 * clock::DAY_MS,
    ensures
        times.len() == messages.len(),
        times[i] matches Some(local) && local.hour < 24 && local.minute < 60
            && messages[i].timestamp_ms as int / 60000 - 1440 <= (local.day - clock::EPOCH_DAY)
            * 1440 + local.hour * 60 + local.minute <= messages[i].timestamp_ms as int / 60000
            + 1440,
{
    let ms = messages[i].timestamp_ms as i64 as int;
    assert(ms == messages[i].timestamp_ms);
    assert(clock::is_local_time(times[i], ms));
}

} // verus!
