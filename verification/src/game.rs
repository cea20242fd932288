use vstd::prelude::*;
use crate::geom::{rect_contains, rects_overlap};
use crate::bullet::Bullet;
use crate::enemy::{Enemy, ENEMY_HP_LIMIT};
use crate::geom::round_units;
use crate::player::{default_player, player_after_effects, player_after_move, shoot_choice,
    KeyState, Player, HEALTH_FLOOR, SHOOT_COOLDOWN_MAX};
use crate::bullet::bullet_velocity;
use crate::collision::CollisionType;

verus! {

/// Ticks a stage's countdown starts from.
pub const STD_TIMER_MAX: i32 = 3000;

/// Ceiling the stage timer saturates at, so the grace-period bonus can never
/// push the counter out of range.
pub const TIMER_CAP: i32 = 1_000_000_000;

/// Grace period added to the stage timer when an enemy reaches the player.
pub const CONTACT_TIMER_BONUS: i32 = 50;

/// Row, in whole game units, the player's rounded vertical position must
/// reach for the stage exit: one tile above the playfield's bottom edge.
pub const EXIT_ROW_UNITS: i64 = 240;

/// The simulation state one game session carries between fixed ticks.
pub struct GameState {
    pub player: Player,
    pub bullets: Vec<Bullet>,
    pub enemies: Vec<Enemy>,
    pub enemies_killcount: i32,
    pub kill_goal: Vec<i32>,
    pub current_stage: usize,
    pub stage_timer: i32,
}

impl GameState {
    pub open spec fn wf(self) -> bool {
        &&& self.player.wf()
        &&& forall|i: int| 0 <= i < self.bullets@.len() ==> (#[trigger] self.bullets@[i]).wf()
        &&& forall|i: int| 0 <= i < self.enemies@.len() ==> (#[trigger] self.enemies@[i]).wf()
        &&& 0 <= self.stage_timer <= TIMER_CAP
        &&& 0 <= self.enemies_killcount
    }

    /// A fresh session: default player, no entities, first stage, full
    /// timer.
    pub fn new() -> (gs: GameState)
        ensures
            gs.player == default_player(),
            gs.bullets@.len() == 0,
            gs.enemies@.len() == 0,
            gs.enemies_killcount == 0,
            gs.kill_goal@ == seq![200i32],
            gs.current_stage == 0,
            gs.stage_timer == STD_TIMER_MAX,
            gs.wf(),
    {
        let mut kill_goal: Vec<i32> = Vec::new();
        kill_goal.push(200);
        assert(kill_goal@ =~= seq![200i32]);
        GameState {
            player: Player::default(),
            bullets: Vec::new(),
            enemies: Vec::new(),
            enemies_killcount: 0,
            kill_goal,
            current_stage: 0,
            stage_timer: STD_TIMER_MAX,
        }
    }
}

/// The top-level mode the game session is in. Only `Playing` runs the
/// simulation; the others are menu screens around it.
#[derive(Clone, Copy, PartialEq, Eq, Structural, Debug)]
pub enum Phase {
    MainMenu,
    Playing,
    Dead,
    PauseMenu,
    Settings,
}

/// One menu-relevant key edge the host frame loop observed.
#[derive(Clone, Copy, PartialEq, Eq, Structural, Debug)]
pub enum UiEvent {
    Confirm,
    Back,
    Restart,
    Quit,
}

/// What a phase transition asks the host to do besides switching screens.
#[derive(Clone, Copy, PartialEq, Eq, Structural, Debug)]
pub struct PhaseChange {
    pub next: Phase,
    pub quit: bool,
    pub new_session: bool,
}

/// The explicit transition table over the five phases: the main menu starts
/// play, opens the settings or quits by its selected entry; escape pauses
/// play and resumes it; the pause menu can quit; the death screen restarts
/// into a fresh session at the main menu; the settings screen returns to the
/// main menu.
pub open spec fn phase_transition_spec(p: Phase, ev: UiEvent, menu_index: usize) -> PhaseChange {
    match (p, ev) {
        (Phase::MainMenu, UiEvent::Confirm) => {
            if menu_index == 0 {
                PhaseChange { next: Phase::Playing, quit: false, new_session: false }
            } else if menu_index == 1 {
                PhaseChange { next: Phase::Settings, quit: false, new_session: false }
            } else {
                PhaseChange { next: Phase::MainMenu, quit: true, new_session: false }
            }
        },
        (Phase::Playing, UiEvent::Back) => PhaseChange { next: Phase::PauseMenu, quit: false, new_session: false },
        (Phase::Dead, UiEvent::Restart) => PhaseChange { next: Phase::MainMenu, quit: false, new_session: true },
        (Phase::PauseMenu, UiEvent::Back) => PhaseChange { next: Phase::Playing, quit: false, new_session: false },
        (Phase::PauseMenu, UiEvent::Quit) => PhaseChange { next: p, quit: true, new_session: false },
        (Phase::Settings, UiEvent::Restart) => PhaseChange { next: Phase::MainMenu, quit: false, new_session: false },
        (Phase::Settings, UiEvent::Confirm) => PhaseChange { next: Phase::MainMenu, quit: false, new_session: false },
        _ => PhaseChange { next: p, quit: false, new_session: false },
    }
}

/// Apply one menu key edge to the current phase.
pub fn phase_transition(p: Phase, ev: UiEvent, menu_index: usize) -> (c: PhaseChange)
    ensures
        c == phase_transition_spec(p, ev, menu_index),
{
    match (p, ev) {
        (Phase::MainMenu, UiEvent::Confirm) => {
            if menu_index == 0 {
                PhaseChange { next: Phase::Playing, quit: false, new_session: false }
            } else if menu_index == 1 {
                PhaseChange { next: Phase::Settings, quit: false, new_session: false }
            } else {
                PhaseChange { next: Phase::MainMenu, quit: true, new_session: false }
            }
        },
        (Phase::Playing, UiEvent::Back) => PhaseChange { next: Phase::PauseMenu, quit: false, new_session: false },
        (Phase::Dead, UiEvent::Restart) => PhaseChange { next: Phase::MainMenu, quit: false, new_session: true },
        (Phase::PauseMenu, UiEvent::Back) => PhaseChange { next: Phase::Playing, quit: false, new_session: false },
        (Phase::PauseMenu, UiEvent::Quit) => PhaseChange { next: p, quit: true, new_session: false },
        (Phase::Settings, UiEvent::Restart) => PhaseChange { next: Phase::MainMenu, quit: false, new_session: false },
        (Phase::Settings, UiEvent::Confirm) => PhaseChange { next: Phase::MainMenu, quit: false, new_session: false },
        _ => PhaseChange { next: p, quit: false, new_session: false },
    }
}

/// Move the main-menu selection one entry up or down, wrapping around the
/// `len` entries.
pub fn menu_move(idx: usize, len: usize, up: bool) -> (r: usize)
    requires
        0 < len,
        idx < len,
    ensures
        up ==> r == (if idx == 0 { (len - 1) as int } else { idx - 1 }),
        !up ==> r == (if idx + 1 >= len { 0int } else { idx + 1 }),
        r < len,
{
    if up {
        if idx != 0 {
            idx - 1
        } else {
            len - 1
        }
    } else {
        let next = idx + 1;
        if next >= len {
            0
        } else {
            next
        }
    }
}


/// What one fixed tick reports back to the host loop.
#[derive(Clone, Copy, PartialEq, Eq, Structural, Debug)]
pub enum TickOutcome {
    Running,
    Dead,
    NextStage,
}

/// Whether a projectile's position point falls inside an enemy's hitbox.
pub open spec fn bullet_hits_enemy(e: Enemy, b: Bullet) -> bool {
    rect_contains(e.coords.x as int, e.coords.y as int, e.wh.x as int, e.wh.y as int,
        b.coords.x as int, b.coords.y as int)
}

/// Whether the player's and an enemy's full hitboxes overlap.
pub open spec fn player_hits_enemy(p: Player, e: Enemy) -> bool {
    rects_overlap(p.coords.x as int, p.coords.y as int, p.wh.x as int, p.wh.y as int,
        e.coords.x as int, e.coords.y as int, e.wh.x as int, e.wh.y as int)
}

/// Running state of the hit sweep over every (enemy, bullet) pair: which
/// bullets are spent, each enemy's hit points, which enemies died during the
/// sweep, and the last enemy that took a non-fatal hit.
#[verifier::ext_equal]
pub struct SweepState {
    pub used: Seq<bool>,
    pub hp: Seq<int>,
    pub dead: Seq<bool>,
    pub flash: Option<int>,
}

pub open spec fn sweep_init(es: Seq<Enemy>, bs: Seq<Bullet>) -> SweepState {
    SweepState {
        used: Seq::new(bs.len(), |j: int| false),
        hp: Seq::new(es.len(), |i: int| es[i].hp as int),
        dead: Seq::new(es.len(), |i: int| false),
        flash: None,
    }
}

/// One pair visit: a live bullet inside a not-yet-dead enemy's hitbox is
/// spent and deals the player's strength in damage; a kill marks the enemy
/// dead, a survivable hit marks it flashing.
pub open spec fn sweep_cell(
    st: SweepState, es: Seq<Enemy>, bs: Seq<Bullet>, strength: int, i: int, j: int,
) -> SweepState {
    if !st.used[j] && !st.dead[i] && bullet_hits_enemy(es[i], bs[j]) {
        let hp2 = st.hp[i] - strength;
        SweepState {
            used: st.used.update(j, true),
            hp: st.hp.update(i, hp2),
            dead: if hp2 <= 0 { st.dead.update(i, true) } else { st.dead },
            flash: if hp2 <= 0 { st.flash } else { Some(i) },
        }
    } else {
        st
    }
}

/// The sweep state after enemy `i` has been visited against the first `j`
/// bullets, starting from `st`.
pub open spec fn sweep_row(
    st: SweepState, es: Seq<Enemy>, bs: Seq<Bullet>, strength: int, i: int, j: int,
) -> SweepState
    decreases j,
{
    if j <= 0 {
        st
    } else {
        sweep_cell(sweep_row(st, es, bs, strength, i, j - 1), es, bs, strength, i, j - 1)
    }
}

/// The sweep state after the first `i` enemies have each been visited
/// against every bullet, in order.
pub open spec fn sweep_rows(es: Seq<Enemy>, bs: Seq<Bullet>, strength: int, i: int) -> SweepState
    decreases i,
{
    if i <= 0 {
        sweep_init(es, bs)
    } else {
        sweep_row(sweep_rows(es, bs, strength, i - 1), es, bs, strength, i - 1, bs.len() as int)
    }
}

pub open spec fn sweep_final(es: Seq<Enemy>, bs: Seq<Bullet>, strength: int) -> SweepState {
    sweep_rows(es, bs, strength, es.len() as int)
}

/// The bullets not spent by the sweep, in order, among the first `n`.
pub open spec fn kept_bullets(bs: Seq<Bullet>, st: SweepState, n: int) -> Seq<Bullet>
    decreases n,
{
    if n <= 0 {
        Seq::empty()
    } else {
        let rest = kept_bullets(bs, st, n - 1);
        if st.used[n - 1] {
            rest
        } else {
            rest.push(bs[n - 1])
        }
    }
}

/// The enemies the sweep left alive, in order, among the first `n`, each
/// carrying its remaining hit points.
pub open spec fn surviving_enemies(es: Seq<Enemy>, st: SweepState, n: int) -> Seq<Enemy>
    decreases n,
{
    if n <= 0 {
        Seq::empty()
    } else {
        let rest = surviving_enemies(es, st, n - 1);
        if st.dead[n - 1] {
            rest
        } else {
            rest.push(Enemy { hp: st.hp[n - 1] as i32, ..es[n - 1] })
        }
    }
}

/// Fewer enemies survive the sweep than were visited.
pub proof fn lemma_surviving_len(es: Seq<Enemy>, st: SweepState, n: int)
    requires
        0 <= n,
    ensures
        surviving_enemies(es, st, n).len() <= n,
    decreases n,
{
    if n > 0 {
        lemma_surviving_len(es, st, n - 1);
    }
}

/// How many of the first `n` enemies the sweep killed.
pub open spec fn dead_count(st: SweepState, n: int) -> int
    decreases n,
{
    if n <= 0 {
        0
    } else {
        dead_count(st, n - 1) + if st.dead[n - 1] { 1int } else { 0int }
    }
}

/// A kill count bumped by `dc`, saturating at the counter's ceiling.
pub open spec fn sat_count(kc: int, dc: int) -> int {
    if kc + dc > i32::MAX { i32::MAX as int } else { kc + dc }
}


/// A flash signal lifted to its mathematical form.
pub open spec fn flash_abs(f: Option<usize>) -> Option<int> {
    match f {
        Some(v) => Some(v as int),
        None => None,
    }
}

impl GameState {
    /// Resolve every (enemy, bullet) pair in order: a bullet whose position
    /// lies inside a not-yet-dead enemy's hitbox is removed and deals the
    /// player's strength in damage; an enemy killed this way is removed and
    /// counted, one that survives a hit is flagged for the damage flash. The
    /// scan is read-only and removals are applied afterwards, so earlier
    /// removals never shift the indices later pairs are judged by.
    pub fn resolve_bullet_hits(&mut self, damage_flash: &mut Option<usize>)
        requires
            old(self).wf(),
        ensures
            ({
                let es = old(self).enemies@;
                let bs = old(self).bullets@;
                let st = sweep_final(es, bs, old(self).player.strength as int);
                &&& final(self).bullets@ == kept_bullets(bs, st, bs.len() as int)
                &&& final(self).enemies@ == surviving_enemies(es, st, es.len() as int)
                &&& final(self).enemies_killcount == sat_count(
                    old(self).enemies_killcount as int, dead_count(st, es.len() as int))
                &&& *final(damage_flash) == (match st.flash {
                    Some(fi) => if !st.dead[fi] {
                        Some(surviving_enemies(es, st, fi).len() as usize)
                    } else {
                        *old(damage_flash)
                    },
                    None => *old(damage_flash),
                })
                &&& (match st.flash {
                    Some(fi) => 0 <= fi < es.len() && surviving_enemies(es, st, fi).len() <= fi,
                    None => true,
                })
            }),
            final(self).player == old(self).player,
            final(self).current_stage == old(self).current_stage,
            final(self).stage_timer == old(self).stage_timer,
            final(self).kill_goal@ == old(self).kill_goal@,
            final(self).wf(),
    {
        let ghost es = self.enemies@;
        let ghost bs = self.bullets@;
        let strength = self.player.strength;
        let ne = self.enemies.len();
        let nb = self.bullets.len();

        let mut used: Vec<bool> = Vec::new();
        let mut k: usize = 0;
        while k < nb
            invariant
                used@.len() == k,
                k <= nb,
                forall|m: int| 0 <= m < k ==> !used@[m],
            decreases nb - k,
        {
            used.push(false);
            k = k + 1;
        }
        let mut dead: Vec<bool> = Vec::new();
        let mut k: usize = 0;
        while k < ne
            invariant
                dead@.len() == k,
                k <= ne,
                ne == self.enemies@.len(),
                forall|m: int| 0 <= m < k ==> !dead@[m],
            decreases ne - k,
        {
            dead.push(false);
            k = k + 1;
        }
        let mut hp: Vec<i32> = Vec::new();
        let mut k: usize = 0;
        while k < ne
            invariant
                hp@.len() == k,
                k <= ne,
                ne == self.enemies@.len(),
                self.enemies@ == es,
                forall|m: int| 0 <= m < k ==> hp@[m] == es[m].hp,
            decreases ne - k,
        {
            let h = self.enemies[k].hp;
            hp.push(h);
            k = k + 1;
        }
        let mut flash: Option<usize> = None;

        let ghost mut st = sweep_init(es, bs);
        proof {
            assert(st.used =~= used@.map_values(|b: bool| b));
        }

        let mut i: usize = 0;
        while i < ne
            invariant
                i <= ne,
                self == old(self),
                ne == es.len(),
                nb == bs.len(),
                es == self.enemies@,
                bs == self.bullets@,
                old(self).wf(),
                0 <= strength <= 1000,
                strength == old(self).player.strength,
                st == sweep_rows(es, bs, strength as int, i as int),
                st.used.len() == nb && used@.len() == nb,
                st.hp.len() == ne && hp@.len() == ne,
                st.dead.len() == ne && dead@.len() == ne,
                forall|m: int| 0 <= m < nb ==> st.used[m] == used@[m],
                forall|m: int| 0 <= m < ne ==> st.hp[m] == hp@[m] as int,
                forall|m: int| 0 <= m < ne ==> st.dead[m] == dead@[m],
                st.flash == flash_abs(flash),
                st.flash matches Some(v) ==> 0 <= v < ne,
                forall|m: int| 0 <= m < ne ==>
                    -(ENEMY_HP_LIMIT as int) - 2000 <= #[trigger] st.hp[m] <= ENEMY_HP_LIMIT as int,
                forall|m: int| 0 <= m < ne ==> (!st.dead[m] ==> st.hp[m] == es[m].hp || st.hp[m] > 0),
            decreases ne - i,
        {
            let ghost row_st = st;
            let mut j: usize = 0;
            while j < nb
                invariant
                    i < ne,
                    j <= nb,
                    self == old(self),
                    ne == es.len(),
                    nb == bs.len(),
                    es == self.enemies@,
                    bs == self.bullets@,
                    old(self).wf(),
                    0 <= strength <= 1000,
                    strength == old(self).player.strength,
                    row_st == sweep_rows(es, bs, strength as int, i as int),
                    st == sweep_row(row_st, es, bs, strength as int, i as int, j as int),
                    st.used.len() == nb && used@.len() == nb,
                    st.hp.len() == ne && hp@.len() == ne,
                    st.dead.len() == ne && dead@.len() == ne,
                    forall|m: int| 0 <= m < nb ==> st.used[m] == used@[m],
                    forall|m: int| 0 <= m < ne ==> st.hp[m] == hp@[m] as int,
                    forall|m: int| 0 <= m < ne ==> st.dead[m] == dead@[m],
                    st.flash == flash_abs(flash),
                    st.flash matches Some(v) ==> 0 <= v < ne,
                    forall|m: int| 0 <= m < ne ==>
                        -(ENEMY_HP_LIMIT as int) - 2000 <= #[trigger] st.hp[m] <= ENEMY_HP_LIMIT as int,
                    forall|m: int| 0 <= m < ne ==> (!st.dead[m] ==> st.hp[m] == es[m].hp || st.hp[m] > 0),
                decreases nb - j,
            {
                let e = self.enemies[i];
                let b = self.bullets[j];
                if !used[j] && !dead[i]
                    && b.coords.x >= e.coords.x && b.coords.x <= e.coords.x + e.wh.x
                    && b.coords.y >= e.coords.y && b.coords.y <= e.coords.y + e.wh.y {
                    used.set(j, true);
                    let hp_before = hp[i];
                    let hp2 = hp_before - strength;
                    hp.set(i, hp2);
                    if hp2 <= 0 {
                        dead.set(i, true);
                    } else {
                        flash = Some(i);
                    }
                }
                proof {
                    st = sweep_cell(st, es, bs, strength as int, i as int, j as int);
                }
                j = j + 1;
            }
            proof {
                assert(st == sweep_rows(es, bs, strength as int, i as int + 1));
            }
            i = i + 1;
        }
        proof {
            assert(st == sweep_final(es, bs, old(self).player.strength as int));
        }

        let mut new_bullets: Vec<Bullet> = Vec::new();
        let mut j: usize = 0;
        while j < nb
            invariant
                j <= nb,
                self == old(self),
                nb == bs.len(),
                bs == self.bullets@,
                old(self).wf(),
                st.used.len() == nb && used@.len() == nb,
                forall|m: int| 0 <= m < nb ==> st.used[m] == used@[m],
                new_bullets@ == kept_bullets(bs, st, j as int),
                forall|m: int| 0 <= m < new_bullets@.len() ==> (#[trigger] new_bullets@[m]).wf(),
            decreases nb - j,
        {
            if !used[j] {
                let b = self.bullets[j];
                new_bullets.push(b);
            }
            j = j + 1;
        }

        let mut new_enemies: Vec<Enemy> = Vec::new();
        let mut deadcount: usize = 0;
        let mut flash_new: Option<usize> = None;
        let mut i: usize = 0;
        while i < ne
            invariant
                i <= ne,
                self == old(self),
                ne == es.len(),
                es == self.enemies@,
                old(self).wf(),
                st.hp.len() == ne && hp@.len() == ne,
                st.dead.len() == ne && dead@.len() == ne,
                forall|m: int| 0 <= m < ne ==> st.hp[m] == hp@[m] as int,
                forall|m: int| 0 <= m < ne ==> st.dead[m] == dead@[m],
                st.flash == flash_abs(flash),
                st.flash matches Some(v) ==> 0 <= v < ne,
                forall|m: int| 0 <= m < ne ==>
                    -(ENEMY_HP_LIMIT as int) - 2000 <= #[trigger] st.hp[m] <= ENEMY_HP_LIMIT as int,
                forall|m: int| 0 <= m < ne ==> (!st.dead[m] ==> st.hp[m] == es[m].hp || st.hp[m] > 0),
                new_enemies@ == surviving_enemies(es, st, i as int),
                deadcount as int == dead_count(st, i as int),
                deadcount <= i,
                forall|m: int| 0 <= m < new_enemies@.len() ==> (#[trigger] new_enemies@[m]).wf(),
                (match st.flash {
                    Some(fi) => if fi < i && !st.dead[fi] {
                        flash_new == Some(surviving_enemies(es, st, fi).len() as usize)
                    } else {
                        flash_new is None
                    },
                    None => flash_new is None,
                }),
            decreases ne - i,
        {
            if dead[i] {
                deadcount = deadcount + 1;
            } else {
                let is_flash = match flash {
                    Some(fi) => fi == i,
                    None => false,
                };
                if is_flash {
                    flash_new = Some(new_enemies.len());
                }
                let mut e = self.enemies[i];
                e.hp = hp[i];
                new_enemies.push(e);
            }
            i = i + 1;
        }

        self.bullets = new_bullets;
        self.enemies = new_enemies;

        let kc = self.enemies_killcount;
        let room = (i32::MAX - kc) as usize;
        if deadcount >= room {
            self.enemies_killcount = i32::MAX;
        } else {
            self.enemies_killcount = kc + (deadcount as i32);
        }

        proof {
            match st.flash {
                Some(fi) => lemma_surviving_len(es, st, fi),
                None => (),
            }
        }
        if let Some(v) = flash_new {
            *damage_flash = Some(v);
        }
    }
}


/// A stage timer one tick later: decremented while positive.
pub open spec fn countdown(t: int) -> int {
    if t > 0 { t - 1 } else { t }
}

/// The stage timer with the contact grace period added, saturating at the
/// counter's ceiling.
pub open spec fn timer_with_bonus(t: int) -> int {
    if t + CONTACT_TIMER_BONUS > TIMER_CAP { TIMER_CAP as int } else { t + CONTACT_TIMER_BONUS }
}

/// Player health one contact lower, saturating at the counter's floor; play
/// ends at zero, far above it.
pub open spec fn health_after_contact(h: int) -> int {
    if h > HEALTH_FLOOR { h - 1 } else { h }
}

/// The next stage index, held at the last representable one.
pub open spec fn next_stage_index(s: int) -> int {
    if s < usize::MAX { s + 1 } else { s }
}

/// Every projectile advanced by one tick.
pub open spec fn bullets_stepped(bs: Seq<Bullet>) -> Seq<Bullet> {
    Seq::new(bs.len(), |i: int| bs[i].stepped())
}

/// Every enemy advanced by one AI-and-movement tick against the player's
/// position.
pub open spec fn enemies_updated(es: Seq<Enemy>, pc: crate::geom::Vec2, cm: Seq<CollisionType>) -> Seq<Enemy> {
    Seq::new(es.len(), |i: int| es[i].after_update(pc, cm))
}

/// Whether any enemy, once moved this tick, overlaps the player's hitbox.
pub open spec fn any_contact(es: Seq<Enemy>, p: Player, cm: Seq<CollisionType>) -> bool {
    exists|j: int| 0 <= j < es.len() && player_hits_enemy(p, (#[trigger] es[j]).after_update(p.coords, cm))
}

/// Everything one fixed tick leaves behind.
#[verifier::ext_equal]
pub struct TickResult {
    pub player: Player,
    pub bullets: Seq<Bullet>,
    pub enemies: Seq<Enemy>,
    pub killcount: int,
    pub stage: int,
    pub timer: int,
    pub cooldown: int,
    pub flash: Option<int>,
    pub outcome: TickOutcome,
}

/// One fixed tick of the simulation, in order: the running stage timer
/// counts down and may admit one spawned enemy; the player's effects tick
/// and its movement and shooting resolve; the shared cooldown counts down;
/// projectiles advance; enemies move, and the first one to reach the player
/// costs one health, grants the timer grace period, wipes every enemy and
/// recentres the player; at zero health the tick ends in `Dead`; otherwise
/// the bullet sweep resolves hits, and an expired timer with the player on
/// the exit row advances the stage.
pub open spec fn tick_result(
    p0: Player, bs0: Seq<Bullet>, es0: Seq<Enemy>, kc0: int, stage0: int, t0: int,
    cd0: int, keys: KeyState, cm: Seq<CollisionType>, spawn: Option<Enemy>, flash0: Option<int>,
) -> TickResult {
    let t1 = countdown(t0);
    let es1 = if t0 > 0 && spawn is Some { es0.push(spawn->Some_0) } else { es0 };
    let p1 = player_after_effects(p0);
    let p2 = player_after_move(p1, keys, cm);
    let shooting = cd0 == 0 && shoot_choice(keys) is Some;
    let bs1 = if shooting {
        bs0.push(Bullet {
            coords: Bullet::spawn_coords(p2.coords),
            velocity: bullet_velocity(shoot_choice(keys)->Some_0),
        })
    } else {
        bs0
    };
    let cd1 = if shooting { SHOOT_COOLDOWN_MAX - p1.quickshoot } else { cd0 };
    let cd2 = if cd1 > 0 { cd1 - 1 } else { cd1 };
    let bs2 = bullets_stepped(bs1);
    let contact = any_contact(es1, p2, cm);
    let p3 = if contact {
        Player {
            coords: Player::center_coords(),
            health: health_after_contact(p2.health as int) as i32,
            ..p2
        }
    } else {
        p2
    };
    let t2 = if contact { timer_with_bonus(t1) } else { t1 };
    let es2 = if contact { Seq::<Enemy>::empty() } else { enemies_updated(es1, p2.coords, cm) };
    if p3.health <= 0 {
        TickResult {
            player: p3, bullets: bs2, enemies: es2, killcount: kc0, stage: stage0,
            timer: t2, cooldown: cd2, flash: flash0, outcome: TickOutcome::Dead,
        }
    } else {
        let st = sweep_final(es2, bs2, p3.strength as int);
        let bs3 = kept_bullets(bs2, st, bs2.len() as int);
        let es3 = surviving_enemies(es2, st, es2.len() as int);
        let kc1 = sat_count(kc0, dead_count(st, es2.len() as int));
        let flash1 = match st.flash {
            Some(fi) => if !st.dead[fi] {
                Some(surviving_enemies(es2, st, fi).len() as int)
            } else {
                flash0
            },
            None => flash0,
        };
        if t2 <= 0 && round_units(p3.coords.y as int) >= EXIT_ROW_UNITS {
            TickResult {
                player: Player { coords: Player::center_coords(), ..p3 },
                bullets: bs3, enemies: es3, killcount: kc1,
                stage: next_stage_index(stage0), timer: STD_TIMER_MAX as int,
                cooldown: cd2, flash: flash1, outcome: TickOutcome::NextStage,
            }
        } else {
            TickResult {
                player: p3, bullets: bs3, enemies: es3, killcount: kc1, stage: stage0,
                timer: t2, cooldown: cd2, flash: flash1, outcome: TickOutcome::Running,
            }
        }
    }
}

/// Whether one tick's outputs follow from its inputs as `tick_result` says.
pub open spec fn tick_applies(
    spawn: Option<Enemy>, pre: GameState, cd0: int, keys: KeyState, cm: Seq<CollisionType>,
    flash0: Option<int>, post: GameState, cd1: int, flash1: Option<int>, out: TickOutcome,
) -> bool {
    let r = tick_result(
        pre.player, pre.bullets@, pre.enemies@, pre.enemies_killcount as int,
        pre.current_stage as int, pre.stage_timer as int, cd0, keys, cm, spawn, flash0,
    );
    &&& post.player == r.player
    &&& post.bullets@ == r.bullets
    &&& post.enemies@ == r.enemies
    &&& post.enemies_killcount == r.killcount
    &&& post.current_stage == r.stage
    &&& post.stage_timer == r.timer
    &&& post.kill_goal@ == pre.kill_goal@
    &&& cd1 == r.cooldown
    &&& flash1 == r.flash
    &&& out == r.outcome
}

/// Advance every projectile by one fixed tick.
fn step_bullets(bullets: &mut Vec<Bullet>)
    requires
        forall|j: int| 0 <= j < old(bullets)@.len() ==> (#[trigger] old(bullets)@[j]).wf(),
    ensures
        final(bullets)@ == bullets_stepped(old(bullets)@),
        forall|j: int| 0 <= j < final(bullets)@.len() ==> (#[trigger] final(bullets)@[j]).wf(),
{
    let n = bullets.len();
    let mut i: usize = 0;
    while i < n
        invariant
            i <= n,
            bullets@.len() == n,
            n == old(bullets)@.len(),
            forall|j: int| 0 <= j < old(bullets)@.len() ==> (#[trigger] old(bullets)@[j]).wf(),
            forall|j: int| 0 <= j < i ==> bullets@[j] == old(bullets)@[j].stepped(),
            forall|j: int| i <= j < n ==> bullets@[j] == old(bullets)@[j],
            forall|j: int| 0 <= j < i ==> (#[trigger] bullets@[j]).wf(),
        decreases n - i,
    {
        let mut b = bullets[i];
        b.update();
        bullets.set(i, b);
        i = i + 1;
    }
    proof {
        assert(bullets@ =~= bullets_stepped(old(bullets)@));
    }
}

impl GameState {
    /// One fixed tick with the spawn decision already made: `spawn` is the
    /// enemy the running stage timer admits this tick, if any. Every other
    /// step is deterministic in the inputs.
    /// Move every enemy one tick and resolve player contact: the first
    /// enemy whose moved hitbox overlaps the player's costs one health,
    /// grants the timer grace period, wipes every enemy and recentres the
    /// player. Reports whether contact happened.
    fn advance_enemies(&mut self, collision_map: &Vec<CollisionType>) -> (hit: bool)
        requires
            old(self).wf(),
        ensures
            ({
                let contact = any_contact(old(self).enemies@, old(self).player, collision_map@);
                &&& hit == contact
                &&& final(self).player == (if contact {
                    Player {
                        coords: Player::center_coords(),
                        health: health_after_contact(old(self).player.health as int) as i32,
                        ..old(self).player
                    }
                } else {
                    old(self).player
                })
                &&& final(self).stage_timer == (if contact {
                    timer_with_bonus(old(self).stage_timer as int)
                } else {
                    old(self).stage_timer as int
                })
                &&& final(self).enemies@ == (if contact {
                    Seq::<Enemy>::empty()
                } else {
                    enemies_updated(old(self).enemies@, old(self).player.coords, collision_map@)
                })
            }),
            final(self).bullets@ == old(self).bullets@,
            final(self).enemies_killcount == old(self).enemies_killcount,
            final(self).current_stage == old(self).current_stage,
            final(self).kill_goal@ == old(self).kill_goal@,
            final(self).wf(),
    {
        let ghost es1 = self.enemies@;
        let ghost cm = collision_map@;
        let pl = self.player;
        let ne = self.enemies.len();
        let mut updated: Vec<Enemy> = Vec::new();
        let mut hit = false;
        let mut i: usize = 0;
        while i < ne
            invariant
                i <= ne,
                ne == es1.len(),
                es1 == self.enemies@,
                pl == self.player,
                pl.wf(),
                forall|j: int| 0 <= j < es1.len() ==> (#[trigger] es1[j]).wf(),
                updated@.len() == i,
                forall|j: int| 0 <= j < i ==>
                    #[trigger] updated@[j] == es1[j].after_update(pl.coords, collision_map@),
                forall|j: int| 0 <= j < i ==> (#[trigger] updated@[j]).wf(),
                hit == (exists|j: int| 0 <= j < i && player_hits_enemy(pl, #[trigger] updated@[j])),
            decreases ne - i,
        {
            let mut e = self.enemies[i];
            e.update(&pl, collision_map);
            let overlaps = pl.coords.x <= e.coords.x + e.wh.x && pl.coords.x + pl.wh.x >= e.coords.x
                && pl.coords.y <= e.coords.y + e.wh.y && pl.coords.y + pl.wh.y >= e.coords.y;
            let ghost prev = updated@;
            if overlaps {
                hit = true;
            }
            updated.push(e);
            proof {
                assert(updated@[i as int] == e);
                assert(overlaps == player_hits_enemy(pl, e));
                assert(forall|j: int| 0 <= j < i ==> updated@[j] == prev[j]);
                if hit {
                    if overlaps {
                        assert(player_hits_enemy(pl, updated@[i as int]));
                    } else {
                        let j0 = choose|j: int| 0 <= j < i && player_hits_enemy(pl, #[trigger] prev[j]);
                        assert(player_hits_enemy(pl, updated@[j0]));
                    }
                } else {
                    assert(forall|j: int| 0 <= j < i + 1 ==> !player_hits_enemy(pl, #[trigger] updated@[j]));
                }
            }
            i = i + 1;
        }
        proof {
            if hit {
                let j0 = choose|j: int| 0 <= j < ne && player_hits_enemy(pl, #[trigger] updated@[j]);
                assert(player_hits_enemy(pl, es1[j0].after_update(pl.coords, collision_map@)));
            } else {
                assert forall|j: int| 0 <= j < es1.len()
                    implies !player_hits_enemy(pl, (#[trigger] es1[j]).after_update(pl.coords, collision_map@)) by {
                    assert(updated@[j] == es1[j].after_update(pl.coords, collision_map@));
                }
            }
            assert(hit == any_contact(es1, pl, cm));
        }
        if hit {
            if self.player.health > HEALTH_FLOOR {
                self.player.health = self.player.health - 1;
            }
            self.stage_timer = if self.stage_timer > TIMER_CAP - CONTACT_TIMER_BONUS {
                TIMER_CAP
            } else {
                self.stage_timer + CONTACT_TIMER_BONUS
            };
            self.enemies = Vec::new();
            self.player.reset_coords();
            proof {
                assert(self.enemies@ =~= Seq::<Enemy>::empty());
            }
        } else {
            self.enemies = updated;
            proof {
                assert(self.enemies@ =~= enemies_updated(es1, pl.coords, cm));
            }
        }
        hit
    }

    #[verifier::rlimit(80)]
    pub fn fixed_tick_with(
        &mut self, shoot_cooldown: &mut i32, keys: &KeyState,
        collision_map: &Vec<CollisionType>, spawn: Option<Enemy>,
        damage_flash: &mut Option<usize>,
    ) -> (out: TickOutcome)
        requires
            old(self).wf(),
            spawn matches Some(e) ==> e.wf(),
        ensures
            tick_applies(
                spawn, *old(self), *old(shoot_cooldown) as int, *keys, collision_map@,
                flash_abs(*old(damage_flash)), *final(self), *final(shoot_cooldown) as int,
                flash_abs(*final(damage_flash)), out,
            ),
            final(self).wf(),
    {
        let ghost p0 = old(self).player;
        let ghost bs0 = old(self).bullets@;
        let ghost es0 = old(self).enemies@;
        let ghost t0 = old(self).stage_timer as int;
        let ghost cd0 = *old(shoot_cooldown) as int;
        let ghost cm = collision_map@;
        let ghost flash0 = flash_abs(*old(damage_flash));

        if self.stage_timer > 0 {
            self.stage_timer = self.stage_timer - 1;
            if let Some(e) = spawn {
                self.enemies.push(e);
            }
        }
        let ghost t1 = self.stage_timer as int;
        let ghost es1 = self.enemies@;
        proof {
            assert(t1 == countdown(t0));
            assert(es1 == if t0 > 0 && spawn is Some { es0.push(spawn->Some_0) } else { es0 });
        }

        crate::player::update_fixed(self);
        let ghost p1 = self.player;
        proof {
            assert(p1 == player_after_effects(p0));
        }

        crate::player::key_inputs(self, shoot_cooldown, collision_map, keys);
        let ghost p2 = self.player;
        let ghost bs1 = self.bullets@;
        let ghost cd1 = *shoot_cooldown as int;
        proof {
            assert(p2 == player_after_move(p1, *keys, cm));
            assert({
                let shooting = cd0 == 0 && shoot_choice(*keys) is Some;
                &&& bs1 == if shooting {
                    bs0.push(Bullet {
                        coords: Bullet::spawn_coords(p2.coords),
                        velocity: bullet_velocity(shoot_choice(*keys)->Some_0),
                    })
                } else {
                    bs0
                }
                &&& cd1 == if shooting { SHOOT_COOLDOWN_MAX - p1.quickshoot } else { cd0 }
            });
        }

        if *shoot_cooldown > 0 {
            *shoot_cooldown = *shoot_cooldown - 1;
        }
        let ghost cd2 = *shoot_cooldown as int;
        proof {
            assert(cd2 == if cd1 > 0 { cd1 - 1 } else { cd1 });
        }

        step_bullets(&mut self.bullets);
        let ghost bs2 = self.bullets@;
        proof {
            assert(bs2 == bullets_stepped(bs1));
        }

        let hit = self.advance_enemies(collision_map);
        let ghost p3 = self.player;
        let ghost t2 = self.stage_timer as int;
        let ghost es2 = self.enemies@;
        proof {
            let contact = any_contact(es1, p2, cm);
            assert(p3 == if contact {
                Player {
                    coords: Player::center_coords(),
                    health: health_after_contact(p2.health as int) as i32,
                    ..p2
                }
            } else {
                p2
            });
            assert(t2 == if contact { timer_with_bonus(t1) } else { t1 });
            assert(es2 == if contact { Seq::<Enemy>::empty() } else { enemies_updated(es1, p2.coords, cm) });
        }
        let ghost r = tick_result(p0, bs0, es0, old(self).enemies_killcount as int,
            old(self).current_stage as int, t0, cd0, *keys, cm, spawn, flash0);

        if self.player.health <= 0 {
            proof {
                assert(r.outcome == TickOutcome::Dead);
                assert(self.player == r.player && self.bullets@ == r.bullets && self.enemies@ == r.enemies);
                assert(self.stage_timer == r.timer && cd2 == r.cooldown && flash_abs(*damage_flash) == r.flash);
            }
            return TickOutcome::Dead;
        }

        let ne2 = self.enemies.len();
        proof {
            assert(es2.len() == ne2 as int);
        }
        self.resolve_bullet_hits(damage_flash);
        let ghost st = sweep_final(es2, bs2, p3.strength as int);
        proof {
            assert(self.bullets@ == kept_bullets(bs2, st, bs2.len() as int));
            assert(self.enemies@ == surviving_enemies(es2, st, es2.len() as int));
            match st.flash {
                Some(fi) => {
                    assert(0 <= fi < ne2 as int);
                    assert(surviving_enemies(es2, st, fi).len() <= fi);
                },
                None => (),
            }
            assert(flash_abs(*damage_flash) == (match st.flash {
                Some(fi) => if !st.dead[fi] {
                    Some(surviving_enemies(es2, st, fi).len() as int)
                } else {
                    flash0
                },
                None => flash0,
            }));
        }

        if self.stage_timer <= 0 {
            let ry = crate::geom::round_units_of(self.player.coords.y);
            if ry >= EXIT_ROW_UNITS {
                self.stage_timer = STD_TIMER_MAX;
                if self.current_stage < usize::MAX {
                    self.current_stage = self.current_stage + 1;
                }
                self.player.reset_coords();
                proof {
                    assert(r.outcome == TickOutcome::NextStage);
                    assert(self.player == r.player && self.bullets@ == r.bullets && self.enemies@ == r.enemies);
                    assert(self.enemies_killcount == r.killcount && self.current_stage == r.stage);
                    assert(self.stage_timer == r.timer && cd2 == r.cooldown && flash_abs(*damage_flash) == r.flash);
                }
                return TickOutcome::NextStage;
            }
        }
        proof {
            assert(r.outcome == TickOutcome::Running);
            assert(self.player == r.player && self.bullets@ == r.bullets && self.enemies@ == r.enemies);
            assert(self.enemies_killcount == r.killcount && self.current_stage == r.stage);
            assert(self.stage_timer == r.timer && cd2 == r.cooldown && flash_abs(*damage_flash) == r.flash);
        }
        TickOutcome::Running
    }
}


/// What can be said of a spawn decision, whatever the draws gave: no enemy,
/// or a fresh one standing on one of the stage's spawn points.
pub open spec fn valid_spawn(spawn: Option<Enemy>, sp: Seq<crate::geom::Vec2>) -> bool {
    match spawn {
        Some(e) => {
            &&& exists|i: int| 0 <= i < sp.len() && e.coords == #[trigger] sp[i]
            &&& e == Enemy::spawned_at(e.coords, e.preferred_direction)
        },
        None => true,
    }
}

impl GameState {
    /// One fixed tick: while the stage timer runs, with chance 1 in 69 one
    /// enemy spawns at a random spawn point; everything else follows
    /// `fixed_tick_with`, whose contract holds whatever the draws gave.
    pub fn fixed_tick(
        &mut self, shoot_cooldown: &mut i32, keys: &KeyState,
        collision_map: &Vec<CollisionType>, spawnpoints: &Vec<crate::geom::Vec2>,
        damage_flash: &mut Option<usize>,
    ) -> (out: TickOutcome)
        requires
            old(self).wf(),
            0 < spawnpoints@.len() <= 0x10_0000,
            crate::collision::spawnpoints_wf(spawnpoints@),
        ensures
            exists|spawn: Option<Enemy>| valid_spawn(spawn, spawnpoints@) && #[trigger] tick_applies(
                spawn, *old(self), *old(shoot_cooldown) as int, *keys, collision_map@,
                flash_abs(*old(damage_flash)), *final(self), *final(shoot_cooldown) as int,
                flash_abs(*final(damage_flash)), out,
            ),
            final(self).wf(),
    {
        let spawn: Option<Enemy> = if self.stage_timer > 0 {
            if crate::rng::gen_range_usize(0, 69) == 0 {
                Some(Enemy::new_random(spawnpoints))
            } else {
                None
            }
        } else {
            None
        };
        let ghost sp = spawn;
        let out = self.fixed_tick_with(shoot_cooldown, keys, collision_map, spawn, damage_flash);
        proof {
            assert(valid_spawn(sp, spawnpoints@));
            assert(tick_applies(
                sp, *old(self), *old(shoot_cooldown) as int, *keys, collision_map@,
                flash_abs(*old(damage_flash)), *self, *shoot_cooldown as int,
                flash_abs(*damage_flash), out,
            ));
        }
        out
    }
}


} // verus!
