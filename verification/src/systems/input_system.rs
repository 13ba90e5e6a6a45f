//! Input resolver: maps the sampled physical key state to a per-entity
//! declared intent. Movement is level-triggered; attack is edge-triggered
//! against the resolver's own previous-frame key memory.

use vstd::prelude::*;
use crate::components::action_state::ActionState;
use crate::components::entity::Entity;
use crate::components::game_action::GameAction;
use crate::components::input_bindings::InputBindings;

verus! {

/// Whether key code `k` is reported held by the sampled key state
/// (codes beyond the sample count as released).
pub open spec fn key_held(held: Seq<bool>, k: int) -> bool {
    0 <= k < held.len() && held[k]
}

/// Whether some key bound to `action` is currently held.
pub open spec fn direction_held(
    b: Seq<(u32, GameAction)>,
    held: Seq<bool>,
    action: GameAction,
) -> bool {
    exists|j: int| 0 <= j < b.len() && (#[trigger] b[j]).1 == action && key_held(held, b[j].0 as int)
}

/// Whether some bound attack key went from released to held this frame.
pub open spec fn attack_edge(b: Seq<(u32, GameAction)>, held: Seq<bool>, prev: Seq<bool>) -> bool {
    exists|j: int|
        0 <= j < b.len() && (#[trigger] b[j]).1 == GameAction::Attack && key_held(held, b[j].0 as int)
            && !key_held(prev, b[j].0 as int)
}

/// The intent the input resolver declares for one entity: an attack edge
/// overrides all movement for the frame; otherwise each held movement
/// direction sets its bit (conflicts are left to the movement resolver);
/// with nothing held the intent is `Idle`.
pub open spec fn resolved_intent(
    b: Seq<(u32, GameAction)>,
    held: Seq<bool>,
    prev: Seq<bool>,
) -> ActionState {
    if attack_edge(b, held, prev) {
        ActionState::Attacking
    } else if direction_held(b, held, GameAction::MoveRight) || direction_held(
        b,
        held,
        GameAction::MoveLeft,
    ) || direction_held(b, held, GameAction::MoveUp) || direction_held(
        b,
        held,
        GameAction::MoveDown,
    ) {
        ActionState::Moving {
            right: direction_held(b, held, GameAction::MoveRight),
            left: direction_held(b, held, GameAction::MoveLeft),
            up: direction_held(b, held, GameAction::MoveUp),
            down: direction_held(b, held, GameAction::MoveDown),
        }
    } else {
        ActionState::Idle
    }
}

/// The input resolver and its only persistent state: which keys were held
/// last frame, for edge-triggering attacks.
pub struct InputSystem {
    pub previous_keys: Vec<bool>,
}

impl InputSystem {
    /// A resolver that remembers `num_keys` key codes, all initially
    /// released.
    pub fn new(num_keys: usize) -> (s: InputSystem)
        ensures
            s.previous_keys@.len() == num_keys,
            forall|k: int| 0 <= k < num_keys ==> !(#[trigger] s.previous_keys@[k]),
    {
        let mut previous_keys: Vec<bool> = Vec::new();
        let mut i: usize = 0;
        while i < num_keys
            invariant
                i <= num_keys,
                previous_keys@.len() == i,
                forall|k: int| 0 <= k < i ==> !(#[trigger] previous_keys@[k]),
            decreases num_keys - i,
        {
            previous_keys.push(false);
            i = i + 1;
        }
        InputSystem { previous_keys }
    }

    /// The intent `bindings` declares under the sampled key state `held`,
    /// with `previous` as the previous frame's key state.
    pub fn action_for(bindings: &InputBindings, held: &Vec<bool>, previous: &Vec<bool>) -> (a:
        ActionState)
        ensures
            a == resolved_intent(bindings.keys@, held@, previous@),
    {
        let mut right = false;
        let mut left = false;
        let mut up = false;
        let mut down = false;
        let mut attack = false;
        let n = bindings.keys.len();
        let mut j: usize = 0;
        while j < n
            invariant
                j <= n,
                n == bindings.keys@.len(),
                right == direction_held(
                    bindings.keys@.take(j as int),
                    held@,
                    GameAction::MoveRight,
                ),
                left == direction_held(bindings.keys@.take(j as int), held@, GameAction::MoveLeft),
                up == direction_held(bindings.keys@.take(j as int), held@, GameAction::MoveUp),
                down == direction_held(bindings.keys@.take(j as int), held@, GameAction::MoveDown),
                attack == attack_edge(bindings.keys@.take(j as int), held@, previous@),
            decreases n - j,
        {
            let (key, action) = bindings.keys[j];
            let is_held = (key as usize) < held.len() && held[key as usize];
            let was_held = (key as usize) < previous.len() && previous[key as usize];
            if is_held {
                match action {
                    GameAction::MoveRight => {
                        right = true;
                    },
                    GameAction::MoveLeft => {
                        left = true;
                    },
                    GameAction::MoveUp => {
                        up = true;
                    },
                    GameAction::MoveDown => {
                        down = true;
                    },
                    GameAction::Attack => {
                        if !was_held {
                            attack = true;
                        }
                    },
                }
            }
            proof {
                let pre = bindings.keys@.take(j as int);
                let now = bindings.keys@.take(j + 1);
                assert(now =~= pre.push(bindings.keys@[j as int]));
                lemma_prefix_push(pre, bindings.keys@[j as int], held@, previous@);
            }
            j = j + 1;
        }
        proof {
            assert(bindings.keys@.take(n as int) =~= bindings.keys@);
        }
        if attack {
            ActionState::Attacking
        } else if right || left || up || down {
            ActionState::Moving { right, left, up, down }
        } else {
            ActionState::Idle
        }
    }

    /// Commit the sampled key state as next frame's previous-key memory.
    pub fn observe(&mut self, held: &Vec<bool>)
        ensures
            final(self).previous_keys@.len() == old(self).previous_keys@.len(),
            forall|k: int|
                0 <= k < old(self).previous_keys@.len() ==> #[trigger] final(self).previous_keys@[k] == key_held(held@, k),
    {
        let n = self.previous_keys.len();
        let mut k: usize = 0;
        while k < n
            invariant
                k <= n,
                self.previous_keys@.len() == n,
                forall|m: int|
                    0 <= m < k ==> #[trigger] self.previous_keys@[m] == key_held(held@, m),
            decreases n - k,
        {
            let h = k < held.len() && held[k];
            self.previous_keys.set(k, h);
            k = k + 1;
        }
    }

    /// One input resolver pass: declare an intent for every entity in the
    /// batch from the sampled key state, then remember that state for the
    /// next frame's edge detection. All entities see the same
    /// previous-frame memory.
    pub fn run(
        &mut self,
        entities: &Vec<Entity>,
        input_bindings: &Vec<InputBindings>,
        held: &Vec<bool>,
    ) -> (actions: Vec<ActionState>)
        requires
            input_bindings.len() == entities.len(),
        ensures
            actions@.len() == entities.len(),
            forall|i: int|
                0 <= i < entities.len() ==> #[trigger] actions@[i] == resolved_intent(
                    input_bindings@[i].keys@,
                    held@,
                    old(self).previous_keys@,
                ),
            final(self).previous_keys@.len() == old(self).previous_keys@.len(),
            forall|k: int|
                0 <= k < old(self).previous_keys@.len() ==> #[trigger] final(self).previous_keys@[k] == key_held(held@, k),
    {
        let n = input_bindings.len();
        let mut actions: Vec<ActionState> = Vec::new();
        let mut i: usize = 0;
        while i < n
            invariant
                i <= n,
                n == input_bindings@.len(),
                actions@.len() == i,
                self.previous_keys@ == old(self).previous_keys@,
                forall|k: int|
                    0 <= k < i ==> #[trigger] actions@[k] == resolved_intent(
                        input_bindings@[k].keys@,
                        held@,
                        old(self).previous_keys@,
                    ),
            decreases n - i,
        {
            let a = InputSystem::action_for(&input_bindings[i], held, &self.previous_keys);
            actions.push(a);
            i = i + 1;
        }
        self.observe(held);
        actions
    }
}

proof fn lemma_prefix_push(
    pre: Seq<(u32, GameAction)>,
    p: (u32, GameAction),
    held: Seq<bool>,
    prev: Seq<bool>,
)
    ensures
        forall|ga: GameAction| #[trigger] direction_held(pre.push(p), held, ga) == (direction_held(
            pre,
            held,
            ga,
        ) || (p.1 == ga && key_held(held, p.0 as int))),
        attack_edge(pre.push(p), held, prev) == (attack_edge(pre, held, prev) || (p.1
            == GameAction::Attack && key_held(held, p.0 as int) && !key_held(prev, p.0 as int))),
{
    let now = pre.push(p);
    assert forall|ga: GameAction| #[trigger] direction_held(now, held, ga) == (direction_held(
        pre,
        held,
        ga,
    ) || (p.1 == ga && key_held(held, p.0 as int))) by {
        if direction_held(pre, held, ga) {
            let j = choose|j: int|
                0 <= j < pre.len() && (#[trigger] pre[j]).1 == ga && key_held(held, pre[j].0 as int);
            assert(now[j] == pre[j]);
            assert(direction_held(now, held, ga));
        }
        if p.1 == ga && key_held(held, p.0 as int) {
            assert(now[pre.len() as int] == p);
            assert(direction_held(now, held, ga));
        }
        if direction_held(now, held, ga) {
            let j = choose|j: int|
                0 <= j < now.len() && (#[trigger] now[j]).1 == ga && key_held(held, now[j].0 as int);
            if j < pre.len() {
                assert(pre[j] == now[j]);
                assert(direction_held(pre, held, ga));
            }
        }
    }
    if attack_edge(pre, held, prev) {
        let j = choose|j: int|
            0 <= j < pre.len() && (#[trigger] pre[j]).1 == GameAction::Attack && key_held(held, pre[j].0 as int) && !key_held(prev, pre[j].0 as int);
        assert(now[j] == pre[j]);
        assert(attack_edge(now, held, prev));
    }
    if p.1 == GameAction::Attack && key_held(held, p.0 as int) && !key_held(prev, p.0 as int) {
        assert(now[pre.len() as int] == p);
        assert(attack_edge(now, held, prev));
    }
    if attack_edge(now, held, prev) {
        let j = choose|j: int|
            0 <= j < now.len() && (#[trigger] now[j]).1 == GameAction::Attack && key_held(held, now[j].0 as int) && !key_held(prev, now[j].0 as int);
        if j < pre.len() {
            assert(pre[j] == now[j]);
            assert(attack_edge(pre, held, prev));
        }
    }
}

} // verus!
