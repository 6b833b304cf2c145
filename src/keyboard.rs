use vstd::prelude::*;

verus! {

/// Number of keys of the keypad.
pub const KEY_COUNT: usize = 16;

/// Which of the sixteen keys `0x0..=0xF` are held down.
pub struct KeyboardState {
    pub key: [bool; KEY_COUNT],
}

/// The lowest-numbered key held down in `keys`, if any.
pub open spec fn lowest_pressed(keys: Seq<bool>) -> Option<int> {
    if exists|k: int| 0 <= k < keys.len() && #[trigger] keys[k] {
        Some(
            choose|k: int|
                0 <= k < keys.len() && #[trigger] keys[k] && forall|j: int| 0 <= j < k ==> !keys[j],
        )
    } else {
        None
    }
}


impl View for KeyboardState {
    type V = Seq<bool>;

    open spec fn view(&self) -> Seq<bool> {
        self.key@
    }
}

/// When some key is held down, the lowest of them is well defined.
pub proof fn lemma_lowest_pressed(keys: Seq<bool>)
    ensures
        lowest_pressed(keys) matches Some(k) ==> 0 <= k < keys.len() && keys[k] && forall|j: int|
            0 <= j < k ==> !keys[j],
        lowest_pressed(keys) is None <==> forall|k: int| 0 <= k < keys.len() ==> !keys[k],
{
    if exists|k: int| 0 <= k < keys.len() && #[trigger] keys[k] {
        let w = choose|k: int| 0 <= k < keys.len() && #[trigger] keys[k];
        lemma_first_exists(keys, w);
    }
}

proof fn lemma_first_exists(keys: Seq<bool>, w: int)
    requires
        0 <= w < keys.len(),
        keys[w],
    ensures
        exists|k: int|
            0 <= k < keys.len() && #[trigger] keys[k] && forall|j: int| 0 <= j < k ==> !keys[j],
    decreases w,
{
    if exists|j: int| 0 <= j < w && #[trigger] keys[j] {
        let j = choose|j: int| 0 <= j < w && #[trigger] keys[j];
        lemma_first_exists(keys, j);
    } else {
        assert(forall|j: int| 0 <= j < w ==> !keys[j]);
    }
}

impl KeyboardState {
    pub fn new() -> (r: KeyboardState)
        ensures
            r@ == Seq::new(KEY_COUNT as nat, |k: int| false),
    {
        let r = KeyboardState { key: [false; KEY_COUNT] };
        assert(r@ =~= Seq::new(KEY_COUNT as nat, |k: int| false));
        r
    }

    /// Records that key `key` was pressed or released.
    pub fn handle_input(&mut self, key: u8, pressed: bool)
        requires
            key < KEY_COUNT,
        ensures
            final(self)@ == old(self)@.update(key as int, pressed),
    {
        self.key[key as usize] = pressed;
    }

    /// The lowest-numbered key held down, if any.
    pub fn any_pressed(&self) -> (r: Option<usize>)
        ensures
            r matches Some(k) ==> lowest_pressed(self@) == Some(k as int),
            r is None ==> lowest_pressed(self@) is None,
    {
        proof {
            lemma_lowest_pressed(self@);
        }
        let mut i: usize = 0;
        while i < KEY_COUNT
            invariant
                i <= KEY_COUNT,
                self@.len() == KEY_COUNT,
                forall|j: int| 0 <= j < i ==> !self@[j],
            decreases KEY_COUNT - i,
        {
            if self.key[i] {
                return Some(i);
            }
            i = i + 1;
        }
        None
    }
}

} // verus!
