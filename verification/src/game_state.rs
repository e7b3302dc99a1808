//! The quiz: dealing a round, judging an answer, and the per-frame keys.

use crate::catalog::{is_last_named, Sky};
use crate::chance::{next_u32, shuffle};
use crate::pointer::{drag_step, Drag, Pointer};
use crate::text::{decimal, decimal_string, repeat, repeated};
use crate::GameState;
use vstd::prelude::*;
use vstd::string::StringExecFns;

verus! {

/// How many constellations a round offers, one per answer button.
pub const ANSWER_COUNT: usize = 4;

/// Lives at the start of a session.
pub const START_HEALTH: usize = 3;

/// Where the player stands within a round.
#[derive(Clone, Copy, PartialEq, Eq, Structural, Debug, Hash)]
pub enum PlayerState {
    /// The round is open and no hint was taken.
    Playing,
    /// The round is open and the figure of the target was shown.
    Hinted,
    /// An answer was given; the round waits for the next one to be dealt.
    Answered,
}

/// Why a frame of the quiz could not be played.
#[derive(Clone, Copy, PartialEq, Eq, Structural, Debug, Hash)]
pub enum QuizError {
    /// The camera was sent to a constellation, and the catalogue holds none.
    EmptySky,
    /// A right answer would take the score past what it can count.
    ScoreOverflow,
    /// A wrong answer would cost a life, and none is left.
    NoHealth,
}

/// What a session keeps between frames.
#[derive(Debug, Clone)]
pub struct GameData {
    pub score: u32,
    pub health: usize,
    pub target_cons_name: Option<String>,
    pub state: PlayerState,
}

/// The value of a [`GameData`].
pub struct GameDataView {
    pub score: nat,
    pub health: nat,
    pub target: Option<Seq<char>>,
    pub state: PlayerState,
}

impl View for GameData {
    type V = GameDataView;

    open spec fn view(&self) -> GameDataView {
        GameDataView {
            score: self.score as nat,
            health: self.health as nat,
            target: match self.target_cons_name {
                Some(name) => Some(name@),
                None => None,
            },
            state: self.state,
        }
    }
}

impl GameData {
    /// A fresh session: full health, no points, no round dealt yet.
    pub fn new() -> (data: GameData)
        ensures
            data@ == (GameDataView {
                score: 0,
                health: START_HEALTH as nat,
                target: None,
                state: PlayerState::Playing,
            }),
    {
        GameData {
            score: 0,
            health: START_HEALTH,
            target_cons_name: None,
            state: PlayerState::Playing,
        }
    }
}

impl Default for GameData {
    fn default() -> (data: GameData)
        ensures
            data@ == (GameDataView {
                score: 0,
                health: START_HEALTH as nat,
                target: None,
                state: PlayerState::Playing,
            }),
    {
        GameData::new()
    }
}

/// The constellations on offer in a round, in button order: their places in
/// the catalogue and their names, and which of the buttons holds the target.
#[derive(Debug, Clone)]
pub struct Deal {
    pub options: [usize; 4],
    pub labels: Vec<String>,
    pub target: usize,
}

/// What dealing a round came to.
#[derive(Debug, Clone)]
pub struct Round {
    /// The player had no health left: the session is over.
    pub game_over: bool,
    /// The new round, if one could be dealt.
    pub dealt: Option<Deal>,
}

/// The session after a round was dealt whose target is called `target`.
pub open spec fn with_round(data: GameDataView, target: Seq<char>) -> GameDataView {
    GameDataView { target: Some(target), state: PlayerState::Playing, ..data }
}

/// The button that a drawn number makes the target.
pub open spec fn target_place(raw: u32) -> int {
    raw as int % 4
}

/// `order` can fill the buttons from a catalogue of `count` constellations:
/// it has four places to give, and the catalogue holds each of them.
pub open spec fn fills_buttons(order: Seq<usize>, count: nat) -> bool {
    &&& order.len() >= ANSWER_COUNT
    &&& forall|i: int| 0 <= i < ANSWER_COUNT ==> (#[trigger] order[i]) < count
}

/// `deal` offers the constellations at `deal.options` under their names.
pub open spec fn names_options(deal: Deal, names: Seq<Seq<char>>) -> bool {
    &&& deal.labels@.len() == ANSWER_COUNT
    &&& forall|i: int|
        0 <= i < ANSWER_COUNT ==> (#[trigger] deal.labels@[i])@ == names[deal.options@[i] as int]
}

fn fits(sky: &Sky, order: &Vec<usize>) -> (ok: bool)
    ensures
        ok == fills_buttons(order@, sky.content@.len()),
{
    if order.len() < ANSWER_COUNT {
        return false;
    }
    let mut i: usize = 0;
    while i < ANSWER_COUNT
        invariant
            i <= ANSWER_COUNT <= order@.len(),
            forall|k: int| 0 <= k < i ==> (#[trigger] order@[k]) < sky.content@.len(),
        decreases ANSWER_COUNT - i,
    {
        if order[i] >= sky.content.len() {
            return false;
        }
        i += 1;
    }
    true
}

/// Deals a round from a drawn order of the catalogue and a drawn number.
///
/// The first four places of `order` go on the buttons, and `raw` picks the
/// target among them by its remainder. The player then aims at the target
/// and the round is open. Nothing is dealt, and the session stays as it is,
/// when `order` is too short or names a place that the catalogue does not
/// hold; a catalogue of fewer than four constellations is never dealt from.
/// Either way the result says whether the player had already run out of
/// health.
pub fn start_round(data: &mut GameData, sky: &Sky, order: &Vec<usize>, raw: u32) -> (round: Round)
    ensures
        round.game_over == (old(data).health == 0),
        round.dealt is Some <==> sky.content@.len() >= ANSWER_COUNT && fills_buttons(
            order@,
            sky.content@.len(),
        ),
        round.dealt is None ==> *final(data) == *old(data),
        round.dealt matches Some(deal) ==> {
            &&& deal.options@ == order@.take(ANSWER_COUNT as int)
            &&& deal.target == target_place(raw)
            &&& names_options(deal, sky.names())
            &&& final(data)@ == with_round(
                old(data)@,
                sky.names()[order@[target_place(raw)] as int],
            )
        },
{
    let game_over = data.health == 0;
    if sky.content.len() < ANSWER_COUNT || !fits(sky, order) {
        return Round { game_over, dealt: None };
    }
    let options: [usize; 4] = [order[0], order[1], order[2], order[3]];
    assert(options@ =~= order@.take(ANSWER_COUNT as int));
    let target: usize = (raw % 4) as usize;
    let mut labels: Vec<String> = Vec::new();
    let mut i: usize = 0;
    while i < ANSWER_COUNT
        invariant
            i <= ANSWER_COUNT,
            labels@.len() == i,
            forall|k: int|
                0 <= k < ANSWER_COUNT ==> (#[trigger] options@[k]) < sky.content@.len(),
            forall|k: int|
                0 <= k < i ==> (#[trigger] labels@[k])@ == sky.names()[options@[k] as int],
        decreases ANSWER_COUNT - i,
    {
        labels.push(sky.content[options[i]].name.clone());
        i += 1;
    }
    data.target_cons_name = Some(sky.content[options[target]].name.clone());
    data.state = PlayerState::Playing;
    Round { game_over, dealt: Some(Deal { options, labels, target }) }
}

/// `deal` offers four different constellations out of those called `names`,
/// each under its name, and marks one of the four as the target.
pub open spec fn fair_deal(deal: Deal, names: Seq<Seq<char>>) -> bool {
    &&& deal.target < ANSWER_COUNT
    &&& forall|i: int| 0 <= i < ANSWER_COUNT ==> (#[trigger] deal.options@[i]) < names.len()
    &&& forall|i: int, j: int|
        0 <= i < j < ANSWER_COUNT ==> deal.options@[i] != deal.options@[j]
    &&& names_options(deal, names)
}

/// `round` is a fair deal from the constellations called `names` that took
/// the session from `before` to `after`; from fewer than four nothing is
/// dealt.
pub open spec fn dealt_from(
    names: Seq<Seq<char>>,
    before: GameDataView,
    round: Round,
    after: GameDataView,
) -> bool {
    &&& round.game_over == (before.health == 0)
    &&& names.len() < ANSWER_COUNT ==> round.dealt is None && after == before
    &&& names.len() >= ANSWER_COUNT ==> {
        &&& round.dealt matches Some(deal)
        &&& fair_deal(deal, names)
        &&& after == with_round(before, names[deal.options@[deal.target as int] as int])
    }
}

/// `order` lists the places `0, 1, ..` one after the other.
pub open spec fn in_catalogue_order(order: Seq<usize>) -> bool {
    forall|i: int| 0 <= i < order.len() ==> order[i] == i
}

fn catalogue_order(count: usize) -> (order: Vec<usize>)
    ensures
        order@.len() == count,
        in_catalogue_order(order@),
{
    let mut order: Vec<usize> = Vec::new();
    let mut i: usize = 0;
    while i < count
        invariant
            i <= count,
            order@.len() == i,
            in_catalogue_order(order@),
        decreases count - i,
    {
        order.push(i);
        i += 1;
    }
    order
}

/// Reordering the places of a catalogue loses none, adds none and repeats
/// none.
proof fn lemma_reordered(before: Seq<usize>, after: Seq<usize>)
    requires
        in_catalogue_order(before),
        after.to_multiset() == before.to_multiset(),
    ensures
        after.len() == before.len(),
        forall|i: int| 0 <= i < after.len() ==> (#[trigger] after[i]) < before.len(),
        after.no_duplicates(),
{
    before.to_multiset_ensures();
    after.to_multiset_ensures();
    assert forall|i: int| 0 <= i < after.len() implies (#[trigger] after[i]) < before.len() by {
        assert(after.contains(after[i]));
        assert(after.to_multiset().count(after[i]) > 0);
        assert(before.to_multiset().count(after[i]) > 0);
        assert(before.contains(after[i]));
    }
    assert(before.no_duplicates());
    before.lemma_multiset_has_no_duplicates();
    after.lemma_multiset_has_no_duplicates_conv();
}

/// Deals a round at random: draws an order of the whole catalogue and a
/// number, and deals from them as [`start_round`] does.
///
/// Which constellations come up is left to chance. Whatever is drawn, the
/// four on offer differ from one another, the target is one of them, and the
/// player aims at it with the round open. A catalogue of fewer than four
/// constellations deals nothing and leaves the session as it is.
pub fn choose_constellation(data: &mut GameData, sky: &Sky) -> (round: Round)
    ensures
        dealt_from(sky.names(), old(data)@, round, final(data)@),
{
    if sky.content.len() >= ANSWER_COUNT {
        let mut rng = rand::thread_rng();
        let mut order = catalogue_order(sky.content.len());
        let ghost listed = order@;
        shuffle(&mut order, &mut rng);
        let raw = next_u32(&mut rng);
        proof {
            lemma_reordered(listed, order@);
        }
        start_round(data, sky, &order, raw)
    } else {
        Round { game_over: data.health == 0, dealt: None }
    }
}

/// An answer button as the quiz sees it: whether it is held down, and the
/// name written on it, if its text could be read.
#[derive(Debug, Clone)]
pub struct ButtonFace {
    pub pressed: bool,
    pub label: Option<String>,
}

/// The value of a [`ButtonFace`].
pub struct ButtonFaceView {
    pub pressed: bool,
    pub label: Option<Seq<char>>,
}

impl View for ButtonFace {
    type V = ButtonFaceView;

    open spec fn view(&self) -> ButtonFaceView {
        ButtonFaceView {
            pressed: self.pressed,
            label: match self.label {
                Some(text) => Some(text@),
                None => None,
            },
        }
    }
}

/// The values of a row of buttons.
pub open spec fn faces(buttons: Seq<ButtonFace>) -> Seq<ButtonFaceView> {
    buttons.map_values(|b: ButtonFace| b@)
}

/// How a button is filled once an answer is in.
#[derive(Clone, Copy, PartialEq, Eq, Structural, Debug, Hash)]
pub enum ButtonFill {
    /// The button names the target.
    Right,
    /// The button names another constellation.
    Wrong,
}

/// How a button is framed once an answer is in.
#[derive(Clone, Copy, PartialEq, Eq, Structural, Debug, Hash)]
pub enum ButtonBorder {
    /// The button is the one the player chose.
    White,
    /// The button was left alone.
    Black,
}

/// Fill and frame of one button.
#[derive(Clone, Copy, PartialEq, Eq, Structural, Debug, Hash)]
pub struct ButtonLook {
    pub fill: ButtonFill,
    pub border: ButtonBorder,
}

/// What judging an answer came to.
#[derive(Debug, Clone)]
pub struct Verdict {
    /// The figure of the target is to be drawn now; it is not on screen yet.
    pub reveal: bool,
    /// The chosen name is the target's.
    pub correct: bool,
    /// The new look of each button, in the order given. A button without a
    /// readable name keeps its look.
    pub looks: Vec<Option<ButtonLook>>,
}

/// The button gives an answer: it is held down and has a readable name.
pub open spec fn answers(button: ButtonFaceView) -> bool {
    button.pressed && button.label is Some
}

/// The name on the last button that gives an answer.
pub open spec fn pressed_label(row: Seq<ButtonFaceView>) -> Option<Seq<char>>
    decreases row.len(),
{
    if row.len() == 0 {
        None
    } else if answers(row.last()) {
        row.last().label
    } else {
        pressed_label(row.drop_last())
    }
}

/// The chosen name is that of the last button in the row that gives an
/// answer, and none is chosen only when no button gives one.
pub proof fn lemma_pressed_label_is_last(row: Seq<ButtonFaceView>)
    ensures
        match pressed_label(row) {
            Some(name) => exists|i: int|
                {
                    &&& 0 <= i < row.len()
                    &&& answers(#[trigger] row[i])
                    &&& row[i].label == Some(name)
                    &&& forall|j: int| i < j < row.len() ==> !answers(row[j])
                },
            None => forall|i: int| 0 <= i < row.len() ==> !answers(row[i]),
        },
    decreases row.len(),
{
    if row.len() > 0 {
        let last = row.len() - 1;
        if answers(row.last()) {
            assert(answers(row[last]) && row[last].label == pressed_label(row));
        } else {
            let front = row.drop_last();
            lemma_pressed_label_is_last(front);
            assert(forall|i: int| 0 <= i < front.len() ==> front[i] == row[i]);
            if let Some(name) = pressed_label(front) {
                let i = choose|i: int|
                    {
                        &&& 0 <= i < front.len()
                        &&& answers(#[trigger] front[i])
                        &&& front[i].label == Some(name)
                        &&& forall|j: int| i < j < front.len() ==> !answers(front[j])
                    };
                assert(answers(row[i]) && row[i].label == Some(name));
                assert(forall|j: int| i < j < row.len() ==> !answers(row[j])) by {
                    assert(forall|j: int| i < j < front.len() ==> front[j] == row[j]);
                }
            }
        }
    }
}

/// An answer counts: the round is open, has a target, and a name was chosen.
pub open spec fn judges(data: GameDataView, row: Seq<ButtonFaceView>) -> bool {
    &&& data.state != PlayerState::Answered
    &&& pressed_label(row) is Some
    &&& data.target is Some
}

/// Points for a right answer: fewer once the hint was taken.
pub open spec fn reward(state: PlayerState) -> nat {
    if state == PlayerState::Hinted {
        20
    } else {
        100
    }
}

/// The session after an answer was judged.
pub open spec fn judged(data: GameDataView, correct: bool) -> GameDataView {
    if correct {
        GameDataView {
            score: data.score + reward(data.state),
            state: PlayerState::Answered,
            ..data
        }
    } else {
        GameDataView {
            health: (data.health - 1) as nat,
            state: PlayerState::Answered,
            ..data
        }
    }
}

/// The look of a button with the given name, once `selected` was chosen in a
/// round whose target is `target`.
pub open spec fn look_of(
    label: Option<Seq<char>>,
    target: Seq<char>,
    selected: Seq<char>,
) -> Option<ButtonLook> {
    match label {
        Some(text) => Some(
            ButtonLook {
                fill: if text == target {
                    ButtonFill::Right
                } else {
                    ButtonFill::Wrong
                },
                border: if text == selected {
                    ButtonBorder::White
                } else {
                    ButtonBorder::Black
                },
            },
        ),
        None => None,
    }
}

fn find_pressed(buttons: &Vec<ButtonFace>) -> (selected: Option<String>)
    ensures
        match selected {
            Some(text) => pressed_label(faces(buttons@)) == Some(text@),
            None => pressed_label(faces(buttons@)) is None,
        },
{
    let mut i: usize = buttons.len();
    assert(faces(buttons@).take(i as int) =~= faces(buttons@));
    while i > 0
        invariant
            i <= buttons@.len(),
            pressed_label(faces(buttons@)) == pressed_label(faces(buttons@).take(i as int)),
        decreases i,
    {
        let ghost row = faces(buttons@).take(i as int);
        assert(row.drop_last() =~= faces(buttons@).take(i - 1));
        assert(row.last() == buttons@[i - 1]@);
        i -= 1;
        if buttons[i].pressed {
            if let Some(text) = &buttons[i].label {
                return Some(text.clone());
            }
        }
    }
    assert(faces(buttons@).take(0).len() == 0);
    None
}

/// What judging the held-down button comes to, for a session and a row of
/// buttons: the verdict's `correct` in `Ok(Some(..))`, `Ok(None)` when no
/// answer counts, or the reason why the answer cannot be booked.
pub open spec fn ruling(data: GameDataView, row: Seq<ButtonFaceView>) -> Result<
    Option<bool>,
    QuizError,
> {
    if !judges(data, row) {
        Ok(None)
    } else if pressed_label(row) == data.target {
        if data.score + reward(data.state) > u32::MAX {
            Err(QuizError::ScoreOverflow)
        } else {
            Ok(Some(true))
        }
    } else {
        if data.health == 0 {
            Err(QuizError::NoHealth)
        } else {
            Ok(Some(false))
        }
    }
}

/// An answer that is booked closes the round, and a closed round takes no
/// further answer, whatever is held down: the session can change again only
/// by a new deal. Booking never lowers the score nor raises the health.
pub proof fn lemma_answer_closes_round(
    data: GameDataView,
    row: Seq<ButtonFaceView>,
    later: Seq<ButtonFaceView>,
)
    requires
        ruling(data, row) matches Ok(Some(_)),
    ensures
        ({
            let after = judged(data, ruling(data, row)->Ok_0->0);
            &&& after.state == PlayerState::Answered
            &&& ruling(after, later) == Ok::<Option<bool>, QuizError>(None)
            &&& after.score >= data.score
            &&& after.health <= data.health
            &&& after.target == data.target
        }),
{
}

/// Judges the answer that the held-down button gives, if one counts.
///
/// Nothing happens while the round is closed, while no button with a
/// readable name is held down, or before a round was dealt. Otherwise a
/// right answer earns 100 points, or 20 after a hint, a wrong one costs one
/// life, and the round is closed. The verdict says how to repaint the
/// buttons and whether the target's figure still has to be drawn. An answer
/// that cannot be booked, for want of room in the score or of a life to
/// lose, is an error and leaves the session as it is.
pub fn ui_buttons(data: &mut GameData, buttons: &Vec<ButtonFace>) -> (verdict: Result<
    Option<Verdict>,
    QuizError,
>)
    ensures
        match ruling(old(data)@, faces(buttons@)) {
            Err(e) => verdict == Err::<Option<Verdict>, QuizError>(e) && *final(data) == *old(data),
            Ok(None) => verdict == Ok::<Option<Verdict>, QuizError>(None) && *final(data) == *old(
                data,
            ),
            Ok(Some(correct)) => {
                let selected = pressed_label(faces(buttons@))->0;
                let target = old(data)@.target->0;
                &&& verdict matches Ok(Some(v))
                &&& v.reveal == (old(data).state == PlayerState::Playing)
                &&& v.correct == correct
                &&& final(data)@ == judged(old(data)@, correct)
                &&& v.looks@ == faces(buttons@).map_values(
                    |b: ButtonFaceView| look_of(b.label, target, selected),
                )
            },
        },
{
    if data.state == PlayerState::Answered {
        return Ok(None);
    }
    let selected = match find_pressed(buttons) {
        Some(text) => text,
        None => {
            return Ok(None);
        },
    };
    let target = match &data.target_cons_name {
        Some(name) => name.clone(),
        None => {
            return Ok(None);
        },
    };
    let reveal = data.state == PlayerState::Playing;
    let correct = target == selected;
    if correct {
        let gain: u32 = if data.state == PlayerState::Hinted {
            20
        } else {
            100
        };
        if data.score > u32::MAX - gain {
            return Err(QuizError::ScoreOverflow);
        }
        data.score += gain;
    } else {
        if data.health == 0 {
            return Err(QuizError::NoHealth);
        }
        data.health -= 1;
    }
    data.state = PlayerState::Answered;

    let mut looks: Vec<Option<ButtonLook>> = Vec::new();
    let mut i: usize = 0;
    while i < buttons.len()
        invariant
            i <= buttons@.len(),
            looks@.len() == i,
            forall|k: int|
                0 <= k < i ==> (#[trigger] looks@[k]) == look_of(
                    buttons@[k]@.label,
                    target@,
                    selected@,
                ),
        decreases buttons@.len() - i,
    {
        let look = match &buttons[i].label {
            Some(text) => Some(
                ButtonLook {
                    fill: if *text == target {
                        ButtonFill::Right
                    } else {
                        ButtonFill::Wrong
                    },
                    border: if *text == selected {
                        ButtonBorder::White
                    } else {
                        ButtonBorder::Black
                    },
                },
            ),
            None => None,
        };
        looks.push(look);
        i += 1;
    }
    assert(looks@ =~= faces(buttons@).map_values(
        |b: ButtonFaceView| look_of(b.label, target@, selected@),
    ));
    Ok(Some(Verdict { reveal, correct, looks }))
}

/// The keys that the quiz reads in a frame. `space` means that the bar went
/// down in this frame; the others mean that the key is held.
#[derive(Clone, Copy, PartialEq, Eq, Structural, Debug, Hash)]
pub struct GameKeys {
    pub space: bool,
    pub key_a: bool,
    pub key_d: bool,
    pub key_i: bool,
    pub key_r: bool,
    pub key_w: bool,
}

/// How to move the camera in a frame of an open round.
#[derive(Clone, Copy, PartialEq, Eq, Structural, Debug, Hash)]
pub struct Steering {
    /// Turn one step to the left about the vertical axis.
    pub turn_left: bool,
    /// Turn one step to the right about the vertical axis.
    pub turn_right: bool,
    /// Start gliding towards the constellation at this place of the
    /// catalogue.
    pub aim: Option<usize>,
}

/// What the quiz asks of the program in a frame.
#[derive(Debug, Clone)]
pub enum Frame {
    /// A round was dealt, or would have been.
    NewRound(Round),
    /// The hint was taken: draw the figure of the target.
    Hint,
    /// Move the camera.
    Steer(Steering),
}

/// The constellation that the camera can always be sent back to.
pub open spec fn home_name() -> Seq<char> {
    "Ursa Minor"@
}

/// The frame deals a round: the player asks for one, or none was dealt yet.
pub open spec fn deals(keys: GameKeys, data: GameDataView) -> bool {
    keys.space || data.target is None
}

/// The frame takes the hint.
pub open spec fn hints(keys: GameKeys, data: GameDataView) -> bool {
    !deals(keys, data) && keys.key_i && data.state == PlayerState::Playing
}

/// The place to aim at for `name`: that of the last constellation called so,
/// or the head of the catalogue when none is.
pub open spec fn aim_place(names: Seq<Seq<char>>, name: Seq<char>) -> int {
    if names.contains(name) {
        choose|i: int| is_last_named(names, name, i)
    } else {
        0
    }
}

/// The name of the constellation that the held keys aim at, if they aim at
/// one. Going home wins over going back to the target.
pub open spec fn aim_name(keys: GameKeys, data: GameDataView) -> Option<Seq<char>> {
    if keys.key_w {
        Some(home_name())
    } else if keys.key_r {
        data.target
    } else {
        None
    }
}

/// `s` is the steering that the held keys ask for.
pub open spec fn steers(
    s: Steering,
    keys: GameKeys,
    data: GameDataView,
    names: Seq<Seq<char>>,
) -> bool {
    &&& s.turn_left == keys.key_a
    &&& s.turn_right == keys.key_d
    &&& match aim_name(keys, data) {
        Some(name) => s.aim matches Some(place) && place == aim_place(names, name),
        None => s.aim is None,
    }
}

fn locate(sky: &Sky, name: &String) -> (place: usize)
    requires
        sky.content@.len() > 0,
    ensures
        place < sky.content@.len(),
        place == aim_place(sky.names(), name@),
{
    let mut place: usize = 0;
    let mut found: bool = false;
    let mut i: usize = 0;
    while i < sky.content.len()
        invariant
            i <= sky.content@.len(),
            sky.content@.len() > 0,
            found ==> place < i && sky.names()[place as int] == name@ && forall|k: int|
                place < k < i ==> sky.names()[k] != name@,
            !found ==> place == 0 && forall|k: int| 0 <= k < i ==> sky.names()[k] != name@,
        decreases sky.content@.len() - i,
    {
        if sky.content[i].name == *name {
            place = i;
            found = true;
        }
        i += 1;
    }
    proof {
        let names = sky.names();
        if found {
            assert(is_last_named(names, name@, place as int));
            assert(names.contains(name@));
            let other = choose|i: int| is_last_named(names, name@, i);
            assert(other == place);
        }
    }
    place
}

/// The frame steers the camera.
pub open spec fn steers_camera(keys: GameKeys, data: GameDataView) -> bool {
    !deals(keys, data) && !hints(keys, data)
}

/// Reads the quiz keys of one frame.
///
/// A round is dealt when the space bar went down or none was dealt yet; see
/// [`choose_constellation`] for what holds of it. Else the hint key opens
/// the hint while the round is open and unhinted. Else the frame steers:
/// the turn keys as held, and an aim when the home key or the target key is
/// held. To aim into an empty catalogue is an error.
pub fn player_interact(keys: GameKeys, data: &mut GameData, sky: &Sky) -> (frame: Result<
    Frame,
    QuizError,
>)
    ensures
        deals(keys, old(data)@) ==> {
            &&& frame matches Ok(Frame::NewRound(round))
            &&& dealt_from(sky.names(), old(data)@, round, final(data)@)
        },
        hints(keys, old(data)@) ==> {
            &&& frame matches Ok(Frame::Hint)
            &&& final(data)@ == (GameDataView { state: PlayerState::Hinted, ..old(data)@ })
        },
        steers_camera(keys, old(data)@) ==> {
            &&& *final(data) == *old(data)
            &&& if (keys.key_r || keys.key_w) && sky.content@.len() == 0 {
                frame == Err::<Frame, QuizError>(QuizError::EmptySky)
            } else {
                &&& frame matches Ok(Frame::Steer(s))
                &&& steers(s, keys, old(data)@, sky.names())
                &&& s.aim matches Some(place) ==> place < sky.content@.len()
            }
        },
{
    if keys.space || data.target_cons_name.is_none() {
        return Ok(Frame::NewRound(choose_constellation(data, sky)));
    }
    if keys.key_i && data.state == PlayerState::Playing {
        data.state = PlayerState::Hinted;
        return Ok(Frame::Hint);
    }
    if (keys.key_r || keys.key_w) && sky.content.len() == 0 {
        return Err(QuizError::EmptySky);
    }
    let mut aim: Option<usize> = None;
    if keys.key_r {
        if let Some(target) = &data.target_cons_name {
            aim = Some(locate(sky, target));
        }
    }
    if keys.key_w {
        proof {
            reveal_strlit("Ursa Minor");
        }
        let home = String::from_str("Ursa Minor");
        aim = Some(locate(sky, &home));
    }
    Ok(Frame::Steer(Steering { turn_left: keys.key_a, turn_right: keys.key_d, aim }))
}

impl Frame {
    /// The screen that the frame leads to: the closing screen once a round
    /// was asked for with no health left.
    pub fn next_state(&self) -> (next: Option<GameState>)
        ensures
            next == match *self {
                Frame::NewRound(round) if round.game_over => Some(GameState::End),
                _ => None::<GameState>,
            },
    {
        match self {
            Frame::NewRound(round) => if round.game_over {
                Some(GameState::End)
            } else {
                None
            },
            _ => None,
        }
    }
}

/// What the three labels of the quiz screen read.
#[derive(Debug, Clone)]
pub struct Labels {
    pub health: String,
    pub score: String,
    pub hint: String,
}

/// The mark that stands for one life on the health label.
pub open spec fn life_mark() -> Seq<char> {
    "# "@
}

/// The line under the sky: how to go on once the round is closed, how to get
/// help while it is open.
pub open spec fn hint_text(state: PlayerState) -> Seq<char> {
    if state == PlayerState::Answered {
        "press space to continue"@
    } else {
        "press i to get an hint"@
    }
}

/// Writes the labels of the quiz screen: one mark per life left, the score
/// in base ten, and the hint line that fits the round.
pub fn ui_labels(data: &GameData) -> (labels: Labels)
    ensures
        labels.health@ == repeated(life_mark(), data.health as nat),
        labels.score@ == decimal(data.score as nat),
        labels.hint@ == hint_text(data.state),
{
    let hint = if data.state == PlayerState::Answered {
        String::from_str("press space to continue")
    } else {
        String::from_str("press i to get an hint")
    };
    Labels { health: repeat("# ", data.health), score: decimal_string(data.score), hint }
}

/// Decides what the mouse does to the sky in one frame of the quiz.
pub fn player_mouse_move(pointer: Pointer) -> (drag: Drag)
    ensures
        drag == drag_step(pointer),
{
    if !pointer.left_down {
        return Drag::Release;
    }
    if !pointer.cursor {
        return Drag::Keep;
    }
    if !pointer.anchored {
        return Drag::Anchor;
    }
    if !pointer.moved {
        return Drag::Keep;
    }
    if !pointer.rays {
        return Drag::Keep;
    }
    Drag::Turn
}

} // verus!
