//! Key bindings: a mapping from physical key codes to game actions.

use vstd::prelude::*;
use crate::components::game_action::GameAction;

verus! {

/// Default key codes (USB HID usage ids, as keyboards report them):
/// arrows, WASD and space.
pub const KEY_A: u32 = 4;

pub const KEY_D: u32 = 7;

pub const KEY_S: u32 = 22;

pub const KEY_W: u32 = 26;

pub const KEY_SPACE: u32 = 44;

pub const KEY_RIGHT: u32 = 79;

pub const KEY_LEFT: u32 = 80;

pub const KEY_DOWN: u32 = 81;

pub const KEY_UP: u32 = 82;

/// The action the binding list `b` assigns to key `key`, if any; a later
/// entry for the same key overrides an earlier one.
pub open spec fn bound_action(b: Seq<(u32, GameAction)>, key: u32) -> Option<GameAction>
    decreases b.len(),
{
    if b.len() == 0 {
        None
    } else if b.last().0 == key {
        Some(b.last().1)
    } else {
        bound_action(b.drop_last(), key)
    }
}

proof fn lemma_bound_action_update(s: Seq<(u32, GameAction)>, j: int, p: (u32, GameAction), k: u32)
    requires
        0 <= j < s.len(),
        s[j].0 == p.0,
        forall|a: int, b: int| 0 <= a < b < s.len() ==> (#[trigger] s[a]).0 != (#[trigger] s[b]).0,
    ensures
        bound_action(s.update(j, p), k) == (if k == p.0 {
            Some(p.1)
        } else {
            bound_action(s, k)
        }),
    decreases s.len(),
{
    let t = s.update(j, p);
    if j == s.len() - 1 {
        assert(t.drop_last() =~= s.drop_last());
    } else {
        assert(t.last() == s.last());
        assert(t.drop_last() =~= s.drop_last().update(j, p));
        lemma_bound_action_update(s.drop_last(), j, p, k);
    }
}

/// Key bindings of one entity: each bound key maps to exactly one action.
/// Keys are unique; their order carries no meaning.
#[derive(Clone, PartialEq, Debug)]
pub struct InputBindings {
    pub keys: Vec<(u32, GameAction)>,
}

impl InputBindings {
    /// Well-formedness: no key code is bound twice.
    pub open spec fn wf(self) -> bool {
        forall|i: int, j: int|
            0 <= i < j < self.keys@.len() ==> (#[trigger] self.keys@[i]).0 != (
            #[trigger] self.keys@[j]).0
    }

    /// Build bindings from a list of pairs; a later pair for an
    /// already-bound key replaces that key's action.
    pub fn new(bindings: Vec<(u32, GameAction)>) -> (b: InputBindings)
        ensures
            b.wf(),
            forall|k: u32| #[trigger] bound_action(b.keys@, k) == bound_action(bindings@, k),
    {
        let mut keys: Vec<(u32, GameAction)> = Vec::new();
        let n = bindings.len();
        let mut i: usize = 0;
        while i < n
            invariant
                i <= n,
                n == bindings@.len(),
                forall|a: int, c: int|
                    0 <= a < c < keys@.len() ==> (#[trigger] keys@[a]).0 != (#[trigger] keys@[c]).0,
                forall|k: u32| #[trigger] bound_action(keys@, k) == bound_action(
                    bindings@.take(i as int),
                    k,
                ),
            decreases n - i,
        {
            let (key, action) = bindings[i];
            let m = keys.len();
            let mut j: usize = 0;
            while j < m && keys[j].0 != key
                invariant
                    j <= m,
                    m == keys@.len(),
                    forall|a: int| 0 <= a < j ==> (#[trigger] keys@[a]).0 != key,
                decreases m - j,
            {
                j = j + 1;
            }
            let ghost keys0 = keys@;
            let found = j < m;
            if found {
                keys.set(j, (key, action));
            } else {
                keys.push((key, action));
            }
            proof {
                let pre = bindings@.take(i as int);
                let now = bindings@.take(i + 1);
                assert(now.drop_last() =~= pre);
                assert(now.last() == (key, action));
                assert forall|k: u32| #[trigger] bound_action(keys@, k) == bound_action(now, k) by {
                    if found {
                        lemma_bound_action_update(keys0, j as int, (key, action), k);
                    } else {
                        assert(keys@.drop_last() =~= keys0);
                    }
                }
            }
            i = i + 1;
        }
        proof {
            assert(bindings@.take(n as int) =~= bindings@);
        }
        InputBindings { keys }
    }

    /// The default bindings: arrows and WASD move, space attacks.
    pub fn default_bindings() -> (b: InputBindings)
        ensures
            b.wf(),
            bound_action(b.keys@, KEY_RIGHT) == Some(GameAction::MoveRight),
            bound_action(b.keys@, KEY_LEFT) == Some(GameAction::MoveLeft),
            bound_action(b.keys@, KEY_UP) == Some(GameAction::MoveUp),
            bound_action(b.keys@, KEY_DOWN) == Some(GameAction::MoveDown),
            bound_action(b.keys@, KEY_D) == Some(GameAction::MoveRight),
            bound_action(b.keys@, KEY_A) == Some(GameAction::MoveLeft),
            bound_action(b.keys@, KEY_W) == Some(GameAction::MoveUp),
            bound_action(b.keys@, KEY_S) == Some(GameAction::MoveDown),
            bound_action(b.keys@, KEY_SPACE) == Some(GameAction::Attack),
            forall|k: u32|
                !(k == KEY_RIGHT || k == KEY_LEFT || k == KEY_UP || k == KEY_DOWN || k == KEY_D
                    || k == KEY_A || k == KEY_W || k == KEY_S || k == KEY_SPACE)
                    ==> #[trigger] bound_action(b.keys@, k) is None,
    {
        let mut keys: Vec<(u32, GameAction)> = Vec::new();
        keys.push((KEY_RIGHT, GameAction::MoveRight));
        keys.push((KEY_LEFT, GameAction::MoveLeft));
        keys.push((KEY_UP, GameAction::MoveUp));
        keys.push((KEY_DOWN, GameAction::MoveDown));
        keys.push((KEY_D, GameAction::MoveRight));
        keys.push((KEY_A, GameAction::MoveLeft));
        keys.push((KEY_W, GameAction::MoveUp));
        keys.push((KEY_S, GameAction::MoveDown));
        keys.push((KEY_SPACE, GameAction::Attack));
        proof {
            reveal_with_fuel(bound_action, 11);
        }
        InputBindings { keys }
    }
}

impl Default for InputBindings {
    /// Same bindings as `default_bindings`.
    fn default() -> (b: InputBindings)
        ensures
            b.wf(),
            bound_action(b.keys@, KEY_RIGHT) == Some(GameAction::MoveRight),
            bound_action(b.keys@, KEY_LEFT) == Some(GameAction::MoveLeft),
            bound_action(b.keys@, KEY_UP) == Some(GameAction::MoveUp),
            bound_action(b.keys@, KEY_DOWN) == Some(GameAction::MoveDown),
            bound_action(b.keys@, KEY_D) == Some(GameAction::MoveRight),
            bound_action(b.keys@, KEY_A) == Some(GameAction::MoveLeft),
            bound_action(b.keys@, KEY_W) == Some(GameAction::MoveUp),
            bound_action(b.keys@, KEY_S) == Some(GameAction::MoveDown),
            bound_action(b.keys@, KEY_SPACE) == Some(GameAction::Attack),
            forall|k: u32|
                !(k == KEY_RIGHT || k == KEY_LEFT || k == KEY_UP || k == KEY_DOWN || k == KEY_D
                    || k == KEY_A || k == KEY_W || k == KEY_S || k == KEY_SPACE)
                    ==> #[trigger] bound_action(b.keys@, k) is None,
    {
        InputBindings::default_bindings()
    }
}

} // verus!
