//! Movement input: which of the W, A, S, D keys are held, and the direction
//! they ask for. Opposite keys cancel each other.
use vstd::prelude::*;

verus! {

/// A movement key.
#[derive(Clone, Copy, Debug, PartialEq, Eq, Structural, Hash)]
pub enum MovementKey {
    W,
    A,
    S,
    D,
}

/// A movement direction.
#[derive(Clone, Copy, Debug, PartialEq, Eq, Structural)]
pub enum Direction {
    Idle,
    Forward,
    Back,
    Left,
    Right,
    ForwardLeft,
    ForwardRight,
    BackLeft,
    BackRight,
}

/// The direction asked for by the held keys: W forward, S back, A left,
/// D right, where a key held together with its opposite counts for nothing.
pub open spec fn direction_of(w: bool, a: bool, s: bool, d: bool) -> Direction {
    let forward = w && !s;
    let back = s && !w;
    let left = a && !d;
    let right = d && !a;
    if forward && left {
        Direction::ForwardLeft
    } else if forward && right {
        Direction::ForwardRight
    } else if back && left {
        Direction::BackLeft
    } else if back && right {
        Direction::BackRight
    } else if forward {
        Direction::Forward
    } else if back {
        Direction::Back
    } else if left {
        Direction::Left
    } else if right {
        Direction::Right
    } else {
        Direction::Idle
    }
}

/// A direction's name, with "back" for backwards and "idle" for no movement.
pub open spec fn short_name(d: Direction) -> Seq<char> {
    match d {
        Direction::Idle => "idle"@,
        Direction::Forward => "forward"@,
        Direction::Back => "back"@,
        Direction::Left => "left"@,
        Direction::Right => "right"@,
        Direction::ForwardLeft => "forward-left"@,
        Direction::ForwardRight => "forward-right"@,
        Direction::BackLeft => "back-left"@,
        Direction::BackRight => "back-right"@,
    }
}

/// A direction's name, with "backward" for backwards and "idle" for no
/// movement.
pub open spec fn long_name(d: Direction) -> Seq<char> {
    match d {
        Direction::Idle => "idle"@,
        Direction::Forward => "forward"@,
        Direction::Back => "backward"@,
        Direction::Left => "left"@,
        Direction::Right => "right"@,
        Direction::ForwardLeft => "forward-left"@,
        Direction::ForwardRight => "forward-right"@,
        Direction::BackLeft => "backward-left"@,
        Direction::BackRight => "backward-right"@,
    }
}

/// A direction's name as a movement command: as `long_name`, with the empty
/// text for no movement.
pub open spec fn command_name(d: Direction) -> Seq<char> {
    match d {
        Direction::Idle => Seq::empty(),
        _ => long_name(d),
    }
}

/// The set of held movement keys.
#[derive(Clone, Copy, Debug)]
pub struct PressedKeys {
    pub w: bool,
    pub a: bool,
    pub s: bool,
    pub d: bool,
}

impl PressedKeys {
    /// Whether `key` is held.
    pub open spec fn held(&self, key: MovementKey) -> bool {
        match key {
            MovementKey::W => self.w,
            MovementKey::A => self.a,
            MovementKey::S => self.s,
            MovementKey::D => self.d,
        }
    }

    /// The direction the held keys ask for.
    pub open spec fn direction_spec(&self) -> Direction {
        direction_of(self.w, self.a, self.s, self.d)
    }

    /// No key held.
    pub fn new() -> (res: Self)
        ensures
            forall|k: MovementKey| !res.held(k),
    {
        PressedKeys { w: false, a: false, s: false, d: false }
    }

    /// Whether `key` is held.
    pub fn contains(&self, key: MovementKey) -> (res: bool)
        ensures
            res == self.held(key),
    {
        match key {
            MovementKey::W => self.w,
            MovementKey::A => self.a,
            MovementKey::S => self.s,
            MovementKey::D => self.d,
        }
    }

    /// Marks `key` held where `pressed`, released otherwise; the other keys
    /// stay as they are.
    pub fn set(&mut self, key: MovementKey, pressed: bool)
        ensures
            final(self).held(key) == pressed,
            forall|k: MovementKey| k != key ==> final(self).held(k) == old(self).held(k),
    {
        match key {
            MovementKey::W => self.w = pressed,
            MovementKey::A => self.a = pressed,
            MovementKey::S => self.s = pressed,
            MovementKey::D => self.d = pressed,
        }
    }

    /// Marks `key` held.
    pub fn insert(&mut self, key: MovementKey)
        ensures
            final(self).held(key),
            forall|k: MovementKey| k != key ==> final(self).held(k) == old(self).held(k),
    {
        self.set(key, true)
    }

    /// Marks `key` released.
    pub fn remove(&mut self, key: MovementKey)
        ensures
            !final(self).held(key),
            forall|k: MovementKey| k != key ==> final(self).held(k) == old(self).held(k),
    {
        self.set(key, false)
    }

    /// The direction the held keys ask for.
    pub fn direction(&self) -> (res: Direction)
        ensures
            res == self.direction_spec(),
    {
        let forward = self.w && !self.s;
        let back = self.s && !self.w;
        let left = self.a && !self.d;
        let right = self.d && !self.a;
        match (forward, back, left, right) {
            (true, false, true, false) => Direction::ForwardLeft,
            (true, false, false, true) => Direction::ForwardRight,
            (false, true, true, false) => Direction::BackLeft,
            (false, true, false, true) => Direction::BackRight,
            (true, false, false, false) => Direction::Forward,
            (false, true, false, false) => Direction::Back,
            (false, false, true, false) => Direction::Left,
            (false, false, false, true) => Direction::Right,
            _ => Direction::Idle,
        }
    }

    /// The name of the direction the held keys ask for, with "back" for
    /// backwards and "idle" for no movement.
    pub fn calculate_direction(&self) -> (res: String)
        ensures
            res@ == short_name(self.direction_spec()),
    {
        let name = match self.direction() {
            Direction::Idle => "idle",
            Direction::Forward => "forward",
            Direction::Back => "back",
            Direction::Left => "left",
            Direction::Right => "right",
            Direction::ForwardLeft => "forward-left",
            Direction::ForwardRight => "forward-right",
            Direction::BackLeft => "back-left",
            Direction::BackRight => "back-right",
        };
        name.to_string()
    }

    /// The name of the direction the held keys ask for, with "backward" for
    /// backwards and "idle" for no movement.
    pub fn calculate_wasd_state(&self) -> (res: String)
        ensures
            res@ == long_name(self.direction_spec()),
    {
        let name = match self.direction() {
            Direction::Idle => "idle",
            Direction::Forward => "forward",
            Direction::Back => "backward",
            Direction::Left => "left",
            Direction::Right => "right",
            Direction::ForwardLeft => "forward-left",
            Direction::ForwardRight => "forward-right",
            Direction::BackLeft => "backward-left",
            Direction::BackRight => "backward-right",
        };
        name.to_string()
    }

    /// The movement command for the held keys: the direction's name with
    /// "backward" for backwards, and the empty text for no movement.
    pub fn calculate_movement_direction(&self) -> (res: String)
        ensures
            res@ == command_name(self.direction_spec()),
    {
        let name = match self.direction() {
            Direction::Idle => {
                proof {
                    reveal_strlit("");
                }
                ""
            },
            Direction::Forward => "forward",
            Direction::Back => "backward",
            Direction::Left => "left",
            Direction::Right => "right",
            Direction::ForwardLeft => "forward-left",
            Direction::ForwardRight => "forward-right",
            Direction::BackLeft => "backward-left",
            Direction::BackRight => "backward-right",
        };
        name.to_string()
    }
}

/// Holding a key together with its opposite is the same as holding neither.
pub proof fn law_opposites_cancel(w: bool, a: bool, s: bool, d: bool)
    ensures
        direction_of(true, a, true, d) == direction_of(false, a, false, d),
        direction_of(w, true, s, true) == direction_of(w, false, s, false),
{
}

/// Pressing a key that was not held and then releasing it gives back the
/// keys as they were, and so the same direction.
pub proof fn law_press_release_restores(before: PressedKeys, pressed: PressedKeys, after: PressedKeys, key: MovementKey)
    requires
        !before.held(key),
        pressed.held(key),
        forall|k: MovementKey| k != key ==> pressed.held(k) == before.held(k),
        !after.held(key),
        forall|k: MovementKey| k != key ==> after.held(k) == pressed.held(k),
    ensures
        after == before,
        after.direction_spec() == before.direction_spec(),
{
    assert(after.held(MovementKey::W) == before.held(MovementKey::W));
    assert(after.held(MovementKey::A) == before.held(MovementKey::A));
    assert(after.held(MovementKey::S) == before.held(MovementKey::S));
    assert(after.held(MovementKey::D) == before.held(MovementKey::D));
}

/// Swapping the forward and back keys turns the direction front to back.
pub proof fn law_mirror_front_back(w: bool, a: bool, s: bool, d: bool)
    ensures
        direction_of(s, a, w, d) == match direction_of(w, a, s, d) {
            Direction::Forward => Direction::Back,
            Direction::Back => Direction::Forward,
            Direction::ForwardLeft => Direction::BackLeft,
            Direction::ForwardRight => Direction::BackRight,
            Direction::BackLeft => Direction::ForwardLeft,
            Direction::BackRight => Direction::ForwardRight,
            other => other,
        },
{
}

/// The text that names the held movement keys, in the order W, S, A, D,
/// joined by '-': "forward", "backward", "left", "right". Opposite keys do
/// not cancel here.
pub open spec fn joined_keys_text(w: bool, a: bool, s: bool, d: bool) -> Seq<char> {
    let t0: Seq<char> = if w { "forward"@ } else { Seq::empty() };
    let t1: Seq<char> = if s { if t0.len() > 0 { t0 + "-"@ + "backward"@ } else { "backward"@ } } else { t0 };
    let t2: Seq<char> = if a { if t1.len() > 0 { t1 + "-"@ + "left"@ } else { "left"@ } } else { t1 };
    if d { if t2.len() > 0 { t2 + "-"@ + "right"@ } else { "right"@ } } else { t2 }
}

/// The movement text for the held keys that names every held key: the
/// names of the held keys joined by '-', in the order W, S, A, D, with no
/// cancelling of opposite keys.
pub fn process_keyboard_state(keys: &PressedKeys) -> (res: String)
    ensures
        res@ == joined_keys_text(keys.w, keys.a, keys.s, keys.d),
{
    let mut movement_direction = String::new();
    if keys.w {
        movement_direction.append("forward");
    }
    if keys.s {
        if !movement_direction.as_str().is_empty() {
            movement_direction.append("-");
        }
        movement_direction.append("backward");
    }
    if keys.a {
        if !movement_direction.as_str().is_empty() {
            movement_direction.append("-");
        }
        movement_direction.append("left");
    }
    if keys.d {
        if !movement_direction.as_str().is_empty() {
            movement_direction.append("-");
        }
        movement_direction.append("right");
    }
    movement_direction
}


/// The parts joined by '-', in order: the empty text for no parts.
pub open spec fn dash_join(parts: Seq<Seq<char>>) -> Seq<char>
    decreases parts.len(),
{
    if parts.len() == 0 {
        Seq::empty()
    } else if parts.len() == 1 {
        parts[0]
    } else {
        dash_join(parts.drop_last()) + "-"@ + parts.last()
    }
}

/// Joining one more part adds it after a '-', or alone where there was
/// nothing yet.
pub proof fn lemma_dash_join_push(parts: Seq<Seq<char>>, x: Seq<char>)
    ensures
        dash_join(parts.push(x)) == (if parts.len() == 0 {
            x
        } else {
            dash_join(parts) + "-"@ + x
        }),
{
    assert(parts.push(x).drop_last() =~= parts);
}

/// The names of the held keys, in the order W, S, A, D: "forward",
/// "backward", "left", "right".
pub open spec fn held_key_names(w: bool, a: bool, s: bool, d: bool) -> Seq<Seq<char>> {
    let n0: Seq<Seq<char>> = if w { seq!["forward"@] } else { Seq::empty() };
    let n1 = if s { n0.push("backward"@) } else { n0 };
    let n2 = if a { n1.push("left"@) } else { n1 };
    if d { n2.push("right"@) } else { n2 }
}

/// The text naming every held key is those names joined by '-': each name
/// after the first follows a '-'.
pub proof fn law_keys_text_is_dash_joined(w: bool, a: bool, s: bool, d: bool)
    ensures
        joined_keys_text(w, a, s, d) == dash_join(held_key_names(w, a, s, d)),
{
    reveal_strlit("forward");
    reveal_strlit("backward");
    reveal_strlit("left");
    reveal_strlit("right");
    let n0: Seq<Seq<char>> = if w { seq!["forward"@] } else { Seq::empty() };
    let n1 = if s { n0.push("backward"@) } else { n0 };
    let n2 = if a { n1.push("left"@) } else { n1 };
    let t0: Seq<char> = if w { "forward"@ } else { Seq::empty() };
    let t1: Seq<char> = if s { if t0.len() > 0 { t0 + "-"@ + "backward"@ } else { "backward"@ } } else { t0 };
    let t2: Seq<char> = if a { if t1.len() > 0 { t1 + "-"@ + "left"@ } else { "left"@ } } else { t1 };
    assert(dash_join(n0) == t0 && (t0.len() > 0 <==> n0.len() > 0));
    lemma_dash_join_push(n0, "backward"@);
    assert(dash_join(n1) == t1 && (t1.len() > 0 <==> n1.len() > 0));
    lemma_dash_join_push(n1, "left"@);
    assert(dash_join(n2) == t2 && (t2.len() > 0 <==> n2.len() > 0));
    lemma_dash_join_push(n2, "right"@);
}

/// The words of the movement the keys ask for: "forward" or the back word
/// where exactly one of W and S is held, then "left" or "right" where
/// exactly one of A and D is held.
pub open spec fn movement_words(w: bool, a: bool, s: bool, d: bool, back_word: Seq<char>) -> Seq<
    Seq<char>,
> {
    let vertical: Seq<Seq<char>> = if w && !s {
        seq!["forward"@]
    } else if s && !w {
        seq![back_word]
    } else {
        Seq::empty()
    };
    if a && !d {
        vertical.push("left"@)
    } else if d && !a {
        vertical.push("right"@)
    } else {
        vertical
    }
}

/// The name of the direction the keys ask for is its movement words joined
/// by '-': forward or back first, then left or right. Where there is no
/// movement the names say "idle" and the command is the empty text. The
/// short and long names differ only in "back" against "backward".
pub proof fn law_direction_names_are_movement_words(w: bool, a: bool, s: bool, d: bool)
    ensures
        short_name(direction_of(w, a, s, d)) == (if movement_words(w, a, s, d, "back"@).len() == 0 {
            "idle"@
        } else {
            dash_join(movement_words(w, a, s, d, "back"@))
        }),
        long_name(direction_of(w, a, s, d)) == (if movement_words(w, a, s, d, "backward"@).len()
            == 0 {
            "idle"@
        } else {
            dash_join(movement_words(w, a, s, d, "backward"@))
        }),
        command_name(direction_of(w, a, s, d)) == dash_join(
            movement_words(w, a, s, d, "backward"@),
        ),
{
    reveal_strlit("forward");
    reveal_strlit("back");
    reveal_strlit("backward");
    reveal_strlit("left");
    reveal_strlit("right");
    reveal_strlit("idle");
    reveal_strlit("-");
    reveal_strlit("forward-left");
    reveal_strlit("forward-right");
    reveal_strlit("back-left");
    reveal_strlit("back-right");
    reveal_strlit("backward-left");
    reveal_strlit("backward-right");
    lemma_dash_join_push(seq!["forward"@], "left"@);
    lemma_dash_join_push(seq!["forward"@], "right"@);
    lemma_dash_join_push(seq!["back"@], "left"@);
    lemma_dash_join_push(seq!["back"@], "right"@);
    lemma_dash_join_push(seq!["backward"@], "left"@);
    lemma_dash_join_push(seq!["backward"@], "right"@);
    lemma_dash_join_push(Seq::<Seq<char>>::empty(), "left"@);
    lemma_dash_join_push(Seq::<Seq<char>>::empty(), "right"@);
    assert("forward"@ + "-"@ + "left"@ =~= "forward-left"@);
    assert("forward"@ + "-"@ + "right"@ =~= "forward-right"@);
    assert("back"@ + "-"@ + "left"@ =~= "back-left"@);
    assert("back"@ + "-"@ + "right"@ =~= "back-right"@);
    assert("backward"@ + "-"@ + "left"@ =~= "backward-left"@);
    assert("backward"@ + "-"@ + "right"@ =~= "backward-right"@);
    assert(seq!["forward"@] =~= Seq::<Seq<char>>::empty().push("forward"@));
    assert(seq!["back"@] =~= Seq::<Seq<char>>::empty().push("back"@));
    assert(seq!["backward"@] =~= Seq::<Seq<char>>::empty().push("backward"@));
    lemma_dash_join_push(Seq::<Seq<char>>::empty(), "forward"@);
    lemma_dash_join_push(Seq::<Seq<char>>::empty(), "back"@);
    lemma_dash_join_push(Seq::<Seq<char>>::empty(), "backward"@);
}

} // verus!
