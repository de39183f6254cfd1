//! What happens while the splash runs: counting the fades that have
//! completed, moving the background on, and deciding when the splash ends.

use crate::screen::SplashScreenSkipable;
use bevy::color::Color;
use std::collections::HashMap;
use vstd::prelude::*;

verus! {

broadcast use vstd::std_specs::hash::group_hash_axioms;

/// Marks what belongs to the splash and is removed when it ends.
pub struct ClearSplash;

/// What the splash is measured against: the index of the last screen, the
/// state that follows the splash, and the number of completions that all
/// brands raise together. The splash is over when that number is reached.
pub struct MaxScreens<S>(pub u64, pub S, pub u64);

/// What the background of the splash knows of the screens: for each screen the
/// number of fades that complete on it, and the colour behind it.
pub struct SplashBackground {
    pub screens: Vec<u64>,
    pub screen_colors: Vec<Color>,
}

/// The colour that the background takes when the completion counted as number
/// `shown` of screen `screen` comes in: the colour of the next screen, once
/// all completions of `screen` are in and there is a next screen.
pub open spec fn next_color(background: SplashBackground, screen: u64, shown: u64) -> Option<
    Color,
> {
    if background.screens@[screen as int] == shown && screen + 1
        < background.screen_colors@.len() {
        Some(background.screen_colors@[screen + 1])
    } else {
        None
    }
}

impl SplashBackground {
    /// The colour that the background takes when the completion counted as
    /// number `shown` of screen `screen` comes in, if it takes a new one.
    pub fn next_color(&self, screen: u64, shown: u64) -> (color: Option<Color>)
        requires
            screen < self.screens@.len(),
        ensures
            color == next_color(*self, screen, shown),
    {
        assert(screen < self.screens.len());
        let index: usize = screen as usize;
        if self.screens[index] == shown && index + 1 < self.screen_colors.len() {
            Some(self.screen_colors[index + 1])
        } else {
            None
        }
    }
}

/// The number of completions counted for `screen` so far.
pub open spec fn shown_before(showed: Map<u64, u64>, screen: u64) -> u64 {
    if showed.dom().contains(screen) {
        showed[screen]
    } else {
        0
    }
}

/// The counts per screen after the completions `events` have come in, in
/// their order, on top of `showed`.
pub open spec fn showed_after(showed: Map<u64, u64>, events: Seq<u64>) -> Map<u64, u64>
    decreases events.len(),
{
    if events.len() == 0 {
        showed
    } else {
        let before = showed_after(showed, events.drop_last());
        before.insert(events.last(), (shown_before(before, events.last()) + 1) as u64)
    }
}

/// The colour that `background` has taken last while the completions `events`
/// came in on top of `showed`; `None` if it took no new colour.
pub open spec fn color_after(
    background: SplashBackground,
    showed: Map<u64, u64>,
    events: Seq<u64>,
) -> Option<Color>
    decreases events.len(),
{
    if events.len() == 0 {
        None
    } else {
        let before = showed_after(showed, events.drop_last());
        let shown = (shown_before(before, events.last()) + 1) as u64;
        match next_color(background, events.last(), shown) {
            Some(color) => Some(color),
            None => color_after(background, showed, events.drop_last()),
        }
    }
}

/// Whether the splash is over once the completions `events` have come in
/// after `ended` earlier ones: at least one has come in, and with the last of
/// them all completions of the splash are in, whichever screen it is of.
pub open spec fn clear_after<S>(max_screens: MaxScreens<S>, ended: u64, events: Seq<u64>) -> bool {
    &&& events.len() > 0
    &&& ended + events.len() == max_screens.2
}

/// The number of times that `screen` occurs in `events`.
pub open spec fn times(events: Seq<u64>, screen: u64) -> nat
    decreases events.len(),
{
    if events.len() == 0 {
        0
    } else {
        times(events.drop_last(), screen) + if events.last() == screen {
            1nat
        } else {
            0nat
        }
    }
}

/// Counting completions adds up per screen: as long as no count leaves 64
/// bits, a screen's count grows by the number of its completions that came
/// in, and a screen is counted exactly if it was counted before or one of its
/// completions came in.
pub proof fn lemma_showed_after_counts(showed: Map<u64, u64>, events: Seq<u64>, screen: u64)
    requires
        forall|k: u64| shown_before(showed, k) + events.len() <= u64::MAX,
    ensures
        shown_before(showed_after(showed, events), screen) == shown_before(showed, screen) + times(
            events,
            screen,
        ),
        showed_after(showed, events).dom().contains(screen) <==> showed.dom().contains(screen)
            || times(events, screen) > 0,
        times(events, screen) <= events.len(),
    decreases events.len(),
{
    if events.len() > 0 {
        let rest = events.drop_last();
        assert forall|k: u64| shown_before(showed, k) + rest.len() <= u64::MAX by {
            assert(shown_before(showed, k) + events.len() <= u64::MAX);
        }
        lemma_showed_after_counts(showed, rest, screen);
        lemma_showed_after_counts(showed, rest, events.last());
    }
}

/// How far the splash has come: the number of completions that came in, and
/// how many of them for each screen.
pub struct SplashProgress {
    screens_end: u64,
    brands_showed: HashMap<u64, u64>,
}

impl SplashProgress {
    /// The number of completions that came in so far.
    pub closed spec fn ended(&self) -> u64 {
        self.screens_end
    }

    /// For each screen of which a completion came in, the number of them.
    pub closed spec fn showed(&self) -> Map<u64, u64> {
        self.brands_showed@
    }

    /// No screen has more completions than came in altogether, and none that
    /// is counted has zero.
    pub open spec fn wf(&self) -> bool {
        forall|k: u64| #[trigger]
            self.showed().dom().contains(k) ==> 1 <= self.showed()[k] <= self.ended()
    }

    /// The progress of a splash of which nothing has completed yet.
    pub fn new() -> (progress: Self)
        ensures
            progress.wf(),
            progress.ended() == 0,
            progress.showed() == Map::<u64, u64>::empty(),
    {
        SplashProgress { screens_end: 0, brands_showed: HashMap::new() }
    }

    /// The number of completions that came in so far.
    pub fn screens_end(&self) -> (ended: u64)
        ensures
            ended == self.ended(),
    {
        self.screens_end
    }

    /// The number of completions that came in for `screen` so far.
    pub fn brands_showed(&self, screen: u64) -> (shown: u64)
        ensures
            shown == shown_before(self.showed(), screen),
    {
        match self.brands_showed.get(&screen) {
            Some(shown) => *shown,
            None => 0,
        }
    }

    /// Counts one completion of `screen`, and returns how many of them have
    /// come in for that screen with it.
    pub fn record(&mut self, screen: u64) -> (shown: u64)
        requires
            old(self).wf(),
            old(self).ended() < u64::MAX,
        ensures
            final(self).wf(),
            final(self).ended() == old(self).ended() + 1,
            shown == shown_before(old(self).showed(), screen) + 1,
            final(self).showed() == old(self).showed().insert(screen, shown),
    {
        let before: u64 = self.brands_showed(screen);
        self.screens_end = self.screens_end + 1;
        let shown: u64 = before + 1;
        self.brands_showed.insert(screen, shown);
        shown
    }
}

impl Default for SplashProgress {
    fn default() -> (progress: Self)
        ensures
            progress.wf(),
            progress.ended() == 0,
            progress.showed() == Map::<u64, u64>::empty(),
    {
        SplashProgress::new()
    }
}

/// What a round of completions has brought: for each background the colour it
/// takes, if it takes a new one, and whether the splash is over.
pub struct SplashUpdate {
    pub colors: Vec<Option<Color>>,
    pub clear: bool,
}

/// Whether every completion in `events` is of a screen that each of the
/// backgrounds knows.
pub open spec fn events_known(backgrounds: Seq<&SplashBackground>, events: Seq<u64>) -> bool {
    forall|b: int, i: int|
        0 <= b < backgrounds.len() && 0 <= i < events.len() ==> (#[trigger] events[i]) < (
        #[trigger] backgrounds[b]).screens@.len()
}

/// Takes in the completions `events`, each the number of the screen whose
/// brand completed a fade, in the order in which they were raised. Each one
/// is counted. A background moves on to the colour of the next screen when
/// the last completion of a screen comes in. The splash is over when the
/// last of `events` is the last completion of all, whichever screen it is of:
/// screens need not end in their order.
pub fn update_splash<S>(
    progress: &mut SplashProgress,
    max_screens: &MaxScreens<S>,
    backgrounds: &Vec<&SplashBackground>,
    events: &Vec<u64>,
) -> (update: SplashUpdate)
    requires
        old(progress).wf(),
        old(progress).ended() + events@.len() <= u64::MAX,
        events_known(backgrounds@, events@),
    ensures
        final(progress).wf(),
        final(progress).ended() == old(progress).ended() + events@.len(),
        final(progress).showed() == showed_after(old(progress).showed(), events@),
        update.clear == clear_after(*max_screens, old(progress).ended(), events@),
        update.colors@.len() == backgrounds@.len(),
        forall|b: int|
            0 <= b < backgrounds@.len() ==> #[trigger] update.colors@[b] == color_after(
                *backgrounds@[b],
                old(progress).showed(),
                events@,
            ),
{
    let ghost start = progress.showed();
    let ghost start_ended = progress.ended();
    let mut colors: Vec<Option<Color>> = Vec::new();
    let mut b: usize = 0;
    while b < backgrounds.len()
        invariant
            b <= backgrounds@.len(),
            colors@.len() == b,
            forall|k: int| 0 <= k < b ==> #[trigger] colors@[k] == None::<Color>,
        decreases backgrounds.len() - b,
    {
        colors.push(None);
        b += 1;
    }
    let mut clear = false;
    let mut i: usize = 0;
    assert(events@.take(0) == Seq::<u64>::empty());
    while i < events.len()
        invariant
            i <= events@.len(),
            progress.wf(),
            start_ended + events@.len() <= u64::MAX,
            progress.ended() == start_ended + i,
            progress.showed() == showed_after(start, events@.take(i as int)),
            events_known(backgrounds@, events@),
            clear == clear_after(*max_screens, start_ended, events@.take(i as int)),
            colors@.len() == backgrounds@.len(),
            forall|k: int|
                0 <= k < backgrounds@.len() ==> #[trigger] colors@[k] == color_after(
                    *backgrounds@[k],
                    start,
                    events@.take(i as int),
                ),
        decreases events.len() - i,
    {
        let screen: u64 = events[i];
        let ghost before = progress.showed();
        let ghost seen = events@.take(i + 1);
        proof {
            assert(seen.drop_last() == events@.take(i as int));
            assert(seen.last() == screen);
        }
        let shown: u64 = progress.record(screen);
        clear = progress.screens_end() == max_screens.2;
        let mut b: usize = 0;
        while b < backgrounds.len()
            invariant
                b <= backgrounds@.len(),
                i < events@.len(),
                screen == events@[i as int],
                events_known(backgrounds@, events@),
                seen == events@.take(i + 1),
                seen.drop_last() == events@.take(i as int),
                seen.last() == screen,
                before == showed_after(start, events@.take(i as int)),
                shown == shown_before(before, screen) + 1,
                colors@.len() == backgrounds@.len(),
                forall|k: int|
                    0 <= k < b ==> #[trigger] colors@[k] == color_after(*backgrounds@[k], start, seen),
                forall|k: int|
                    b <= k < backgrounds@.len() ==> #[trigger] colors@[k] == color_after(
                        *backgrounds@[k],
                        start,
                        events@.take(i as int),
                    ),
            decreases backgrounds.len() - b,
        {
            assert(events@[i as int] < backgrounds@[b as int].screens@.len());
            match backgrounds[b].next_color(screen, shown) {
                Some(color) => {
                    colors.set(b, Some(color));
                },
                None => {},
            }
            b += 1;
        }
        i += 1;
    }
    assert(events@.take(events@.len() as int) == events@);
    SplashUpdate { colors, clear }
}

/// Whether a key or a mouse button went down or up.
#[derive(Clone, Copy, Debug, PartialEq, Eq, Structural)]
pub enum PressState {
    Pressed,
    Released,
}

/// The stage of a touch on the screen.
#[derive(Clone, Copy, Debug, PartialEq, Eq, Structural)]
pub enum TouchStage {
    Started,
    Moved,
    Ended,
    Canceled,
}

/// What a gamepad reports.
#[derive(Clone, Copy, Debug, PartialEq, Eq, Structural)]
pub enum GamepadSignal {
    /// A gamepad was plugged in or taken away.
    Connection,
    /// A button changed.
    Button,
    /// A stick or trigger moved.
    Axis,
}

/// Whether the splash is skipped, and how many of the pending input events of
/// each kind were looked at to decide it. Those are used up; the others stay
/// pending.
#[derive(Clone, Copy, Debug, PartialEq, Eq, Structural)]
pub struct SkipDecision {
    pub skip: bool,
    pub keys_read: usize,
    pub mouse_read: usize,
    pub touches_read: usize,
    pub gamepad_read: usize,
}

/// Whether looking through events for the first hit reads `read` of them
/// and ends as `found`, where `hits` says of each event whether it is a hit:
/// the search stops at the first hit, and goes through all events where there
/// is none.
pub open spec fn search_reads(hits: Seq<bool>, read: int, found: bool) -> bool {
    &&& 0 <= read <= hits.len()
    &&& forall|k: int| 0 <= k < read - 1 ==> !#[trigger] hits[k]
    &&& found <==> read > 0 && hits[read - 1]
    &&& !found ==> read == hits.len()
}

/// Whether any of the events is a hit.
pub open spec fn any_hit(hits: Seq<bool>) -> bool {
    exists|k: int| 0 <= k < hits.len() && #[trigger] hits[k]
}

/// A search finds a hit exactly if there is one, and there is only one way
/// for it to go: it reads up to the first hit, or everything.
pub proof fn lemma_search_reads(hits: Seq<bool>, read: int, found: bool)
    requires
        search_reads(hits, read, found),
    ensures
        found == any_hit(hits),
        forall|read2: int, found2: bool| #[trigger]
            search_reads(hits, read2, found2) ==> read2 == read && found2 == found,
{
    if found {
        assert(hits[read - 1]);
    } else {
        assert forall|k: int| 0 <= k < hits.len() implies !#[trigger] hits[k] by {
            if k == read - 1 {
            }
        }
    }
    assert forall|read2: int, found2: bool| #[trigger]
        search_reads(hits, read2, found2) implies read2 == read && found2 == found by {
        if read < read2 {
            if found {
                assert(!hits[read - 1]);
            }
        } else if read2 < read {
            if found2 {
                assert(!hits[read2 - 1]);
            }
        }
    }
}

/// For each event, whether it is a key or button going down.
pub open spec fn pressed(events: Seq<PressState>) -> Seq<bool> {
    Seq::new(events.len(), |k: int| events[k] == PressState::Pressed)
}

/// For each event, whether it is the start of a touch.
pub open spec fn started(events: Seq<TouchStage>) -> Seq<bool> {
    Seq::new(events.len(), |k: int| events[k] == TouchStage::Started)
}

/// For each event, whether it is of a gamepad button.
pub open spec fn buttons(events: Seq<GamepadSignal>) -> Seq<bool> {
    Seq::new(events.len(), |k: int| events[k] == GamepadSignal::Button)
}

/// Whether `decision` is what the pending events lead to. A splash without
/// anything on screen, or one that cannot be skipped, is not skipped and
/// reads nothing. Where the default events are ignored, only a request of the
/// host application skips. Otherwise keys, mouse buttons and touches are
/// searched in this order for a press or a start, up to the first found, all
/// gamepad events are read, and a button among them skips too.
pub open spec fn is_skip_decision(
    brands_empty: bool,
    skipable: SplashScreenSkipable,
    keys: Seq<PressState>,
    mouse: Seq<PressState>,
    touches: Seq<TouchStage>,
    gamepad: Seq<GamepadSignal>,
    dev_skip: bool,
    decision: SkipDecision,
) -> bool {
    if brands_empty || !skipable.0 {
        decision == (SkipDecision {
            skip: false,
            keys_read: 0,
            mouse_read: 0,
            touches_read: 0,
            gamepad_read: 0,
        })
    } else if skipable.1 {
        decision == (SkipDecision {
            skip: dev_skip,
            keys_read: 0,
            mouse_read: 0,
            touches_read: 0,
            gamepad_read: 0,
        })
    } else {
        let key = any_hit(pressed(keys));
        let button = any_hit(pressed(mouse));
        let touch = any_hit(started(touches));
        &&& search_reads(pressed(keys), decision.keys_read as int, key)
        &&& if key {
            decision.mouse_read == 0
        } else {
            search_reads(pressed(mouse), decision.mouse_read as int, button)
        }
        &&& if key || button {
            decision.touches_read == 0
        } else {
            search_reads(started(touches), decision.touches_read as int, touch)
        }
        &&& decision.gamepad_read == gamepad.len()
        &&& decision.skip <==> key || button || touch || any_hit(buttons(gamepad)) || dev_skip
    }
}

/// Looks for the first press among `events`.
fn find_pressed(events: &Vec<PressState>) -> (r: (usize, bool))
    ensures
        search_reads(pressed(events@), r.0 as int, r.1),
        r.1 == any_hit(pressed(events@)),
{
    let mut i: usize = 0;
    while i < events.len()
        invariant
            i <= events@.len(),
            forall|k: int| 0 <= k < i ==> !#[trigger] pressed(events@)[k],
        decreases events.len() - i,
    {
        match events[i] {
            PressState::Pressed => {
                proof {
                    lemma_search_reads(pressed(events@), i + 1, true);
                }
                return (i + 1, true);
            },
            PressState::Released => {},
        }
        i += 1;
    }
    proof {
        lemma_search_reads(pressed(events@), i as int, false);
    }
    (i, false)
}

/// Looks for the first start of a touch among `events`.
fn find_started(events: &Vec<TouchStage>) -> (r: (usize, bool))
    ensures
        search_reads(started(events@), r.0 as int, r.1),
        r.1 == any_hit(started(events@)),
{
    let mut i: usize = 0;
    while i < events.len()
        invariant
            i <= events@.len(),
            forall|k: int| 0 <= k < i ==> !#[trigger] started(events@)[k],
        decreases events.len() - i,
    {
        match events[i] {
            TouchStage::Started => {
                proof {
                    lemma_search_reads(started(events@), i + 1, true);
                }
                return (i + 1, true);
            },
            _ => {},
        }
        i += 1;
    }
    proof {
        lemma_search_reads(started(events@), i as int, false);
    }
    (i, false)
}

/// Tells whether any of `events` is of a button.
fn any_button(events: &Vec<GamepadSignal>) -> (found: bool)
    ensures
        found == any_hit(buttons(events@)),
{
    let mut found = false;
    let mut i: usize = 0;
    while i < events.len()
        invariant
            i <= events@.len(),
            found <==> exists|k: int| 0 <= k < i && #[trigger] buttons(events@)[k],
        decreases events.len() - i,
    {
        match events[i] {
            GamepadSignal::Button => {
                assert(buttons(events@)[i as int]);
                found = true;
            },
            _ => {},
        }
        i += 1;
    }
    found
}

/// Decides whether the splash is skipped. `brands_empty` says that nothing of
/// the splash is on screen; `keys`, `mouse`, `touches` and `gamepad` are the
/// pending input events, oldest first; `dev_skip` says that the host
/// application has asked for a skip.
pub fn splash_skip(
    brands_empty: bool,
    skipable: &SplashScreenSkipable,
    keys: &Vec<PressState>,
    mouse: &Vec<PressState>,
    touches: &Vec<TouchStage>,
    gamepad: &Vec<GamepadSignal>,
    dev_skip: bool,
) -> (decision: SkipDecision)
    ensures
        is_skip_decision(
            brands_empty,
            *skipable,
            keys@,
            mouse@,
            touches@,
            gamepad@,
            dev_skip,
            decision,
        ),
{
    let mut decision = SkipDecision {
        skip: false,
        keys_read: 0,
        mouse_read: 0,
        touches_read: 0,
        gamepad_read: 0,
    };
    if brands_empty || !skipable.0 {
        return decision;
    }
    let mut done = false;
    if !skipable.1 {
        let (keys_read, key) = find_pressed(keys);
        decision.keys_read = keys_read;
        done = key;
        if !done {
            let (mouse_read, button) = find_pressed(mouse);
            decision.mouse_read = mouse_read;
            done = button;
        }
        if !done {
            let (touches_read, touch) = find_started(touches);
            decision.touches_read = touches_read;
            done = touch;
        }
        if any_button(gamepad) {
            done = true;
        }
        decision.gamepad_read = gamepad.len();
    }
    decision.skip = done || dev_skip;
    decision
}

} // verus!
