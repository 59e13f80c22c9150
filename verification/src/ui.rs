//! What the screens decide: which action a clicked button requests, which
//! upgrades the upgrade screen offers, and when the shown time changes.

use vstd::prelude::*;
use vstd::string::StrSliceExecFns;

use crate::assets::{is_new_second, second_changed, session_seconds, GameTime};
use crate::components::{Level, UIButton};
use crate::events::{StartEvent, Upgrade};
use crate::states::{is_legal, next_state, AppState, ModeInput};

verus! {

/// What a click on a button requests.
#[derive(Debug, Clone, Copy, PartialEq, Eq, Structural)]
pub enum Click {
    /// Start a new session.
    Restart,
    /// Dismiss the tutorial; the event says whether music is wanted.
    Start(StartEvent),
    /// Leave the upgrade screen, with the upgrade that was chosen, if the
    /// button names one.
    Upgrade(Option<Upgrade>),
    /// The button requests nothing, or it was not pressed.
    Nothing,
}

/// The upgrade that an action of the upgrade screen names, if any.
pub open spec fn upgrade_named(action: Seq<char>) -> Option<Upgrade> {
    if action == "select_upgrade:move_speed"@ {
        Some(Upgrade::MoveSpeed)
    } else if action == "select_upgrade:fire_rate"@ {
        Some(Upgrade::FireRate)
    } else if action == "select_upgrade:bullet_speed"@ {
        Some(Upgrade::BulletSpeed)
    } else if action == "select_upgrade:target_count"@ {
        Some(Upgrade::TargetCount)
    } else {
        None
    }
}

/// What the action `action` names, whatever the mode.
pub open spec fn click_named(action: Seq<char>) -> Click {
    if action == "game_over:restart"@ {
        Click::Restart
    } else if "tutorial:start"@.is_prefix_of(action) {
        Click::Start(StartEvent(!"-without-bgm"@.is_suffix_of(action)))
    } else if "select_upgrade:"@.is_prefix_of(action) {
        Click::Upgrade(upgrade_named(action))
    } else {
        Click::Nothing
    }
}

/// The input to the mode machine that a click stands for.
pub open spec fn input_of(click: Click) -> Option<ModeInput> {
    match click {
        Click::Restart => Some(ModeInput::Restart),
        Click::Start(_) => Some(ModeInput::TutorialDismissed),
        Click::Upgrade(_) => Some(ModeInput::UpgradeSelected),
        Click::Nothing => None,
    }
}

/// Whether a click may be made in `mode`: its input is legal there.
pub open spec fn click_allowed(mode: AppState, click: Click) -> bool {
    match input_of(click) {
        Some(input) => is_legal(mode, input),
        None => false,
    }
}

/// What a pressed button with the action `action` requests in `mode`: what
/// the action names where that is legal in the mode, and nothing otherwise.
pub open spec fn click_of(mode: AppState, action: Seq<char>) -> Click {
    if click_allowed(mode, click_named(action)) {
        click_named(action)
    } else {
        Click::Nothing
    }
}

/// The action of the button that offers `upgrade`.
pub open spec fn action_of(upgrade: Upgrade) -> Seq<char> {
    match upgrade {
        Upgrade::MoveSpeed => "select_upgrade:move_speed"@,
        Upgrade::FireRate => "select_upgrade:fire_rate"@,
        Upgrade::BulletSpeed => "select_upgrade:bullet_speed"@,
        Upgrade::TargetCount => "select_upgrade:target_count"@,
    }
}

/// On the upgrade screen, a click on the button of an upgrade requests that
/// upgrade and the return to the game.
pub proof fn lemma_upgrade_button_requests_its_upgrade(upgrade: Upgrade)
    ensures
        click_of(AppState::SelectUpgrade, action_of(upgrade)) == Click::Upgrade(Some(upgrade)),
        mode_after(AppState::SelectUpgrade, click_of(AppState::SelectUpgrade, action_of(upgrade)))
            == Some(AppState::InGame),
{
    reveal_strlit("game_over:restart");
    reveal_strlit("tutorial:start");
    reveal_strlit("select_upgrade:");
    reveal_strlit("select_upgrade:move_speed");
    reveal_strlit("select_upgrade:fire_rate");
    reveal_strlit("select_upgrade:bullet_speed");
    reveal_strlit("select_upgrade:target_count");
    let action = action_of(upgrade);
    assert(action[0] == 's');
    assert("game_over:restart"@[0] == 'g');
    assert("tutorial:start"@.is_prefix_of(action) ==> action.subrange(0, 14)[0] == 't');
    assert("select_upgrade:"@ =~= action.subrange(0, 15));
    assert("select_upgrade:move_speed"@[15] == 'm');
    assert("select_upgrade:fire_rate"@[15] == 'f');
    assert("select_upgrade:bullet_speed"@[15] == 'b');
    assert("select_upgrade:target_count"@[15] == 't');
}

/// A press is heeded only in the mode whose table lists it: a restart on the
/// game-over screen, a start in the tutorial, an upgrade on the upgrade
/// screen. Everywhere else it requests nothing and no mode.
pub proof fn lemma_click_only_in_its_mode(mode: AppState, action: Seq<char>)
    ensures
        click_of(mode, action) is Restart ==> mode == AppState::GameOver,
        click_of(mode, action) is Start ==> mode == AppState::Tutorial,
        click_of(mode, action) is Upgrade ==> mode == AppState::SelectUpgrade,
        click_of(mode, action) is Nothing ==> mode_after(mode, click_of(mode, action)).is_none(),
        mode_after(mode, click_of(mode, action)) == match click_of(mode, action) {
            Click::Restart => Some(AppState::Start),
            Click::Upgrade(_) => Some(AppState::InGame),
            _ => None::<AppState>,
        },
{
}

/// The mode that a click asks for by itself in `mode`, if any: a restart
/// opens a new session from the game-over screen, and a button of the
/// upgrade screen returns to the game. A click that is not legal in `mode`
/// asks for none.
pub open spec fn mode_after(mode: AppState, click: Click) -> Option<AppState> {
    match click {
        Click::Restart => next_state(mode, ModeInput::Restart),
        Click::Upgrade(_) => next_state(mode, ModeInput::UpgradeSelected),
        _ => None,
    }
}

/// The upgrades that the upgrade screen offers at `level`: the three stat
/// upgrades always, one more target only at every fifth level.
pub open spec fn offered_upgrades(level: Level) -> Seq<Upgrade> {
    if level.0 % 5 == 0 {
        seq![Upgrade::MoveSpeed, Upgrade::FireRate, Upgrade::BulletSpeed, Upgrade::TargetCount]
    } else {
        seq![Upgrade::MoveSpeed, Upgrade::FireRate, Upgrade::BulletSpeed]
    }
}

/// The target-count upgrade is offered exactly at the levels that five
/// divides; the other three are offered at every level.
pub proof fn lemma_target_count_offer(level: Level)
    ensures
        offered_upgrades(level).contains(Upgrade::TargetCount) <==> level.0 % 5 == 0,
        offered_upgrades(level).contains(Upgrade::MoveSpeed),
        offered_upgrades(level).contains(Upgrade::FireRate),
        offered_upgrades(level).contains(Upgrade::BulletSpeed),
{
    let offer = offered_upgrades(level);
    assert(offer[0] == Upgrade::MoveSpeed);
    assert(offer[1] == Upgrade::FireRate);
    assert(offer[2] == Upgrade::BulletSpeed);
    if level.0 % 5 == 0 {
        assert(offer[3] == Upgrade::TargetCount);
    }
}

/// Whether `text` begins with `prefix`.
pub fn starts_with(text: &str, prefix: &str) -> (found: bool)
    ensures
        found == prefix@.is_prefix_of(text@),
{
    let wanted = prefix.unicode_len();
    if wanted > text.unicode_len() {
        return false;
    }
    let mut i: usize = 0;
    while i < wanted
        invariant
            i <= wanted,
            wanted == prefix@.len(),
            wanted <= text@.len(),
            forall|j: int| 0 <= j < i ==> prefix@[j] == text@[j],
        decreases wanted - i,
    {
        if text.get_char(i) != prefix.get_char(i) {
            assert(text@.subrange(0, wanted as int)[i as int] != prefix@[i as int]);
            return false;
        }
        i += 1;
    }
    assert(prefix@ =~= text@.subrange(0, wanted as int));
    true
}

/// Whether `text` ends with `suffix`.
pub fn ends_with(text: &str, suffix: &str) -> (found: bool)
    ensures
        found == suffix@.is_suffix_of(text@),
{
    let wanted = suffix.unicode_len();
    let length = text.unicode_len();
    if wanted > length {
        return false;
    }
    let offset = length - wanted;
    let mut i: usize = 0;
    while i < wanted
        invariant
            i <= wanted,
            wanted == suffix@.len(),
            length == text@.len(),
            offset == length - wanted,
            forall|j: int| 0 <= j < i ==> suffix@[j] == text@[offset + j],
        decreases wanted - i,
    {
        if text.get_char(offset + i) != suffix.get_char(i) {
            assert(text@.subrange(offset as int, length as int)[i as int] != suffix@[i as int]);
            return false;
        }
        i += 1;
    }
    assert(suffix@ =~= text@.subrange(offset as int, length as int));
    true
}

/// Whether two texts are the same.
pub fn same_text(left: &str, right: &str) -> (same: bool)
    ensures
        same == (left@ == right@),
{
    if left.unicode_len() != right.unicode_len() {
        return false;
    }
    let found = starts_with(left, right);
    assert(found ==> left@ =~= right@);
    found
}

/// The upgrade that an action of the upgrade screen names, if any.
pub fn named_upgrade(action: &str) -> (upgrade: Option<Upgrade>)
    ensures
        upgrade == upgrade_named(action@),
{
    if same_text(action, "select_upgrade:move_speed") {
        Some(Upgrade::MoveSpeed)
    } else if same_text(action, "select_upgrade:fire_rate") {
        Some(Upgrade::FireRate)
    } else if same_text(action, "select_upgrade:bullet_speed") {
        Some(Upgrade::BulletSpeed)
    } else if same_text(action, "select_upgrade:target_count") {
        Some(Upgrade::TargetCount)
    } else {
        None
    }
}

/// What the action `action` names, whatever the mode.
pub fn named_click(action: &str) -> (click: Click)
    ensures
        click == click_named(action@),
{
    if same_text(action, "game_over:restart") {
        Click::Restart
    } else if starts_with(action, "tutorial:start") {
        Click::Start(StartEvent(!ends_with(action, "-without-bgm")))
    } else if starts_with(action, "select_upgrade:") {
        Click::Upgrade(named_upgrade(action))
    } else {
        Click::Nothing
    }
}

/// What a button requests in `mode`. A button that is not pressed requests
/// nothing. A pressed one requests what its action names: a restart; the
/// start of the game, with music unless the action ends in "-without-bgm";
/// or the return from the upgrade screen, with the upgrade that the action
/// names. A press that is not legal in `mode` is ignored: a restart counts
/// on the game-over screen only, a start in the tutorial only, an upgrade on
/// the upgrade screen only.
pub fn click_button(mode: AppState, pressed: bool, button: &UIButton) -> (click: Click)
    ensures
        click == if pressed {
            click_of(mode, button.0@)
        } else {
            Click::Nothing
        },
        click_allowed(mode, click) || click == Click::Nothing,
{
    if !pressed {
        return Click::Nothing;
    }
    let click = named_click(button.0);
    let legal = match click {
        Click::Restart => mode.transition(ModeInput::Restart).is_some(),
        Click::Start(_) => mode.transition(ModeInput::TutorialDismissed).is_some(),
        Click::Upgrade(_) => mode.transition(ModeInput::UpgradeSelected).is_some(),
        Click::Nothing => false,
    };
    if legal {
        click
    } else {
        Click::Nothing
    }
}

/// The mode that a click asks for by itself in `mode`, if any.
pub fn next_mode(mode: AppState, click: &Click) -> (next: Option<AppState>)
    ensures
        next == mode_after(mode, *click),
        next == match *click {
            Click::Restart => next_state(mode, ModeInput::Restart),
            Click::Upgrade(_) => next_state(mode, ModeInput::UpgradeSelected),
            _ => None,
        },
{
    match click {
        Click::Restart => mode.transition(ModeInput::Restart),
        Click::Upgrade(_) => mode.transition(ModeInput::UpgradeSelected),
        _ => None,
    }
}

/// The action of the button that offers `upgrade`.
pub fn upgrade_action(upgrade: Upgrade) -> (action: &'static str)
    ensures
        action@ == action_of(upgrade),
{
    match upgrade {
        Upgrade::MoveSpeed => "select_upgrade:move_speed",
        Upgrade::FireRate => "select_upgrade:fire_rate",
        Upgrade::BulletSpeed => "select_upgrade:bullet_speed",
        Upgrade::TargetCount => "select_upgrade:target_count",
    }
}

/// The upgrades that the upgrade screen offers at `level`, in the order of
/// their buttons.
pub fn select_upgrade_ui(level: &Level) -> (offer: Vec<Upgrade>)
    ensures
        offer@ == offered_upgrades(*level),
{
    let mut offer: Vec<Upgrade> = Vec::new();
    offer.push(Upgrade::MoveSpeed);
    offer.push(Upgrade::FireRate);
    offer.push(Upgrade::BulletSpeed);
    if level.0 % 5 == 0 {
        offer.push(Upgrade::TargetCount);
    }
    assert(offer@ =~= offered_upgrades(*level));
    offer
}

/// The whole seconds of the session to show at time `now`, the tick before
/// it having been at `previous`: `Some` exactly when the whole second has
/// changed, which is when the shown time is refreshed.
pub fn update_time_stats(previous: u128, now: u128, game_time: &GameTime) -> (shown: Option<u128>)
    requires
        game_time.0 <= now,
    ensures
        shown == if second_changed(previous as int, now as int) {
            Some(session_seconds(*game_time, now as int) as u128)
        } else {
            None
        },
{
    if is_new_second(previous, now) {
        Some(game_time.elapsed_seconds(now))
    } else {
        None
    }
}

} // verus!
