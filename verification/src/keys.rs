//! Global keybinds: which keys are held, and which bound actions fire.
//!
//! Keys are identified by numeric codes; the embedding program gives each key
//! of the keyboard library one code.
use vstd::prelude::*;

verus! {

/// An action bound to keys.
#[derive(Clone, Copy, Debug, PartialEq, Eq, Structural)]
pub enum KeyEvent {
    ToggleOverlay,
    OpenConfigurator,
}

/// A keyboard event.
#[derive(Clone, Copy, Debug, PartialEq, Eq, Structural)]
pub enum KeyInput {
    Press(u64),
    Release(u64),
    /// Mouse and other events.
    Other,
}

/// The keys held down, each once, in the order they were pressed, and when
/// they last changed. Times are milliseconds on a clock of the caller's that
/// never goes back.
#[derive(Clone, Debug)]
pub struct KeyState {
    pub pressed: Vec<u64>,
    pub last_update: u64,
}

/// The held keys after `key` goes down.
pub open spec fn spec_press(pressed: Seq<u64>, key: u64) -> Seq<u64> {
    if pressed.contains(key) {
        pressed
    } else {
        pressed.push(key)
    }
}

/// Whether a held key differs from `key`.
pub open spec fn other_than(key: u64) -> spec_fn(u64) -> bool {
    |k: u64| k != key
}

/// The held keys after `key` goes up.
pub open spec fn spec_release(pressed: Seq<u64>, key: u64) -> Seq<u64> {
    pressed.filter(other_than(key))
}

impl KeyState {
    /// No key held, as of `now`.
    pub fn new(now: u64) -> (s: KeyState)
        ensures
            s.pressed@.len() == 0,
            s.last_update == now,
    {
        KeyState { pressed: Vec::new(), last_update: now }
    }

    /// Records that `key` went down at `now`; a key already held changes
    /// nothing, not even the time of the last change.
    pub fn press(&mut self, key: u64, now: u64)
        ensures
            final(self).pressed@ == spec_press(old(self).pressed@, key),
            final(self).last_update == if old(self).pressed@.contains(key) {
                old(self).last_update
            } else {
                now
            },
    {
        let mut i: usize = 0;
        while i < self.pressed.len()
            invariant
                i <= self.pressed.len(),
                forall|j: int| 0 <= j < i ==> self.pressed@[j] != key,
            decreases self.pressed.len() - i,
        {
            if self.pressed[i] == key {
                assert(self.pressed@.contains(key));
                return;
            }
            i = i + 1;
        }
        self.pressed.push(key);
        self.last_update = now;
    }

    /// Records that `key` went up at `now`.
    pub fn release(&mut self, key: u64, now: u64)
        ensures
            final(self).pressed@ == spec_release(old(self).pressed@, key),
            final(self).last_update == now,
    {
        let ghost all = self.pressed@;
        let ghost pred = other_than(key);
        let mut kept: Vec<u64> = Vec::new();
        let mut i: usize = 0;
        while i < self.pressed.len()
            invariant
                i <= self.pressed.len(),
                all == self.pressed@,
                pred == other_than(key),
                kept@ == all.take(i as int).filter(pred),
            decreases self.pressed.len() - i,
        {
            let k = self.pressed[i];
            proof {
                assert(all.take(i + 1) == all.take(i as int).push(k));
                all.take(i as int).lemma_filter_push(k, pred);
            }
            if k != key {
                kept.push(k);
            }
            i = i + 1;
        }
        assert(all.take(all.len() as int) == all);
        self.pressed = kept;
        self.last_update = now;
    }

    /// Forgets all held keys, at `now`.
    pub fn clear(&mut self, now: u64)
        ensures
            final(self).pressed@.len() == 0,
            final(self).last_update == now,
    {
        self.pressed.clear();
        self.last_update = now;
    }

    /// Forgets the held keys when nothing changed for more than `max_idle`
    /// milliseconds before `now` (a release may have been missed); says
    /// whether it did.
    pub fn clear_if_stale(&mut self, now: u64, max_idle: u64) -> (cleared: bool)
        ensures
            cleared == (now - old(self).last_update > max_idle),
            cleared ==> final(self).pressed@.len() == 0 && final(self).last_update == now,
            !cleared ==> *final(self) == *old(self),
    {
        if now > self.last_update && now - self.last_update > max_idle {
            self.clear(now);
            true
        } else {
            false
        }
    }
}

/// Whether exactly the keys of a bind are held: as many keys as the bind has,
/// and each of its keys among them.
pub open spec fn spec_matches(keys: Seq<u64>, pressed: Seq<u64>) -> bool {
    &&& pressed.len() == keys.len()
    &&& forall|i: int| 0 <= i < keys.len() ==> pressed.contains(#[trigger] keys[i])
}

/// Keys bound to an action, and whether they are held at the moment.
#[derive(Clone, Debug)]
pub struct Keybind {
    pub keys: Vec<u64>,
    pub event: KeyEvent,
    /// Whether the keys are held (and the action has fired).
    pub active: bool,
}

impl Keybind {
    pub fn new(keys: Vec<u64>, event: KeyEvent) -> (b: Keybind)
        ensures
            b.keys == keys,
            b.event == event,
            !b.active,
    {
        Keybind { keys, event, active: false }
    }

    /// Whether exactly the keys of this bind are held.
    pub fn matches(&self, pressed: &[u64]) -> (r: bool)
        ensures
            r == spec_matches(self.keys@, pressed@),
    {
        if pressed.len() != self.keys.len() {
            return false;
        }
        let mut i: usize = 0;
        while i < self.keys.len()
            invariant
                i <= self.keys.len(),
                forall|j: int| 0 <= j < i ==> pressed@.contains(#[trigger] self.keys@[j]),
            decreases self.keys.len() - i,
        {
            let k = self.keys[i];
            let mut found = false;
            let mut j: usize = 0;
            while j < pressed.len()
                invariant
                    j <= pressed@.len(),
                    found ==> pressed@.contains(k),
                    !found ==> forall|l: int| 0 <= l < j ==> pressed@[l] != k,
                decreases pressed@.len() - j,
            {
                if pressed[j] == k {
                    found = true;
                }
                j = j + 1;
            }
            if !found {
                assert(!pressed@.contains(k)) by {
                    if pressed@.contains(k) {
                        let m = choose|m: int| 0 <= m < pressed@.len() && pressed@[m] == k;
                        assert(false);
                    }
                }
                return false;
            }
            i = i + 1;
        }
        true
    }

    pub fn active(&self) -> (r: bool)
        ensures
            r == self.active,
    {
        self.active
    }

    pub fn set_active(&mut self, value: bool)
        ensures
            final(self).active == value,
            final(self).keys == old(self).keys,
            final(self).event == old(self).event,
    {
        self.active = value;
    }

    pub fn reset(&mut self)
        ensures
            !final(self).active,
            final(self).keys == old(self).keys,
            final(self).event == old(self).event,
    {
        self.active = false;
    }
}

/// The held keys after `input`.
pub open spec fn spec_apply_input(pressed: Seq<u64>, input: KeyInput) -> Seq<u64> {
    match input {
        KeyInput::Press(k) => spec_press(pressed, k),
        KeyInput::Release(k) => spec_release(pressed, k),
        KeyInput::Other => pressed,
    }
}

/// Whether bind `b` starts matching `pressed` and so fires.
pub open spec fn fires(pressed: Seq<u64>) -> spec_fn(Keybind) -> bool {
    |b: Keybind| spec_matches(b.keys@, pressed) && !b.active
}

/// The actions that fire when the held keys become `pressed`: those of the
/// binds that match now and were not active, in the order of the binds.
pub open spec fn spec_fired(binds: Seq<Keybind>, pressed: Seq<u64>) -> Seq<KeyEvent> {
    binds.filter(fires(pressed)).map_values(|b: Keybind| b.event)
}

/// Whether `new` holds the binds of `old`, each active exactly when it matches
/// `pressed`.
pub open spec fn binds_follow(old: Seq<Keybind>, new: Seq<Keybind>, pressed: Seq<u64>) -> bool {
    &&& new.len() == old.len()
    &&& forall|i: int| 0 <= i < old.len() ==> (#[trigger] new[i]).keys == old[i].keys && new[i].event == old[i].event && new[i].active == spec_matches(old[i].keys@, pressed)
}

/// Takes one keyboard event, which came at `now`: updates the held keys and
/// the binds, and returns the actions to run. Events other than key presses
/// and releases change nothing.
pub fn process(input: KeyInput, key_state: &mut KeyState, keybinds: &mut Vec<Keybind>, now: u64) -> (fired: Vec<KeyEvent>)
    ensures
        final(key_state).pressed@ == spec_apply_input(old(key_state).pressed@, input),
        final(key_state).last_update == match input {
            KeyInput::Press(k) => if old(key_state).pressed@.contains(k) {
                old(key_state).last_update
            } else {
                now
            },
            KeyInput::Release(_) => now,
            KeyInput::Other => old(key_state).last_update,
        },
        input is Other ==> final(keybinds)@ == old(keybinds)@ && fired@.len() == 0,
        !(input is Other) ==> binds_follow(old(keybinds)@, final(keybinds)@, final(key_state).pressed@),
        !(input is Other) ==> fired@ == spec_fired(old(keybinds)@, final(key_state).pressed@),
{
    match input {
        KeyInput::Press(k) => key_state.press(k, now),
        KeyInput::Release(k) => key_state.release(k, now),
        KeyInput::Other => {
            return Vec::new();
        },
    }
    let ghost pressed = key_state.pressed@;
    let ghost all = keybinds@;
    let ghost pred = fires(pressed);
    let mut fired: Vec<KeyEvent> = Vec::new();
    let mut i: usize = 0;
    while i < keybinds.len()
        invariant
            i <= keybinds.len() == all.len(),
            pressed == key_state.pressed@,
            pred == fires(pressed),
            forall|j: int| i <= j < all.len() ==> keybinds@[j] == all[j],
            forall|j: int| 0 <= j < i ==> (#[trigger] keybinds@[j]).keys == all[j].keys && keybinds@[j].event == all[j].event && keybinds@[j].active == spec_matches(all[j].keys@, pressed),
            fired@ == all.take(i as int).filter(pred).map_values(|b: Keybind| b.event),
        decreases all.len() - i,
    {
        let matches = keybinds[i].matches(key_state.pressed.as_slice());
        let was_active = keybinds[i].active;
        let ghost b = all[i as int];
        proof {
            assert(all.take(i + 1) == all.take(i as int).push(b));
            all.take(i as int).lemma_filter_push(b, pred);
        }
        if matches && !was_active {
            let ev = keybinds[i].event;
            let ghost before = fired@;
            fired.push(ev);
            assert(all.take(i + 1).filter(pred) == all.take(i as int).filter(pred).push(b));
            assert(fired@ =~= all.take(i + 1).filter(pred).map_values(|b: Keybind| b.event));
        } else {
            assert(all.take(i + 1).filter(pred) == all.take(i as int).filter(pred));
        }
        let mut bind = keybinds.remove(i);
        bind.active = matches;
        keybinds.insert(i, bind);
        i = i + 1;
    }
    assert(all.take(all.len() as int) == all);
    fired
}

/// Forgets all held keys and deactivates every bind.
pub fn reset(key_state: &mut KeyState, keybinds: &mut Vec<Keybind>, now: u64)
    ensures
        final(key_state).pressed@.len() == 0,
        final(key_state).last_update == now,
        final(keybinds)@.len() == old(keybinds)@.len(),
        forall|i: int| 0 <= i < old(keybinds)@.len() ==> (#[trigger] final(keybinds)@[i]).keys == old(keybinds)@[i].keys && final(keybinds)@[i].event == old(keybinds)@[i].event && !final(keybinds)@[i].active,
{
    key_state.clear(now);
    let ghost all = keybinds@;
    let mut i: usize = 0;
    while i < keybinds.len()
        invariant
            i <= keybinds.len() == all.len(),
            forall|j: int| i <= j < all.len() ==> keybinds@[j] == all[j],
            forall|j: int| 0 <= j < i ==> (#[trigger] keybinds@[j]).keys == all[j].keys && keybinds@[j].event == all[j].event && !keybinds@[j].active,
        decreases all.len() - i,
    {
        let mut bind = keybinds.remove(i);
        bind.reset();
        keybinds.insert(i, bind);
        i = i + 1;
    }
}

/// The binds used until the configuration is read: the overlay toggle on
/// `toggle_keys`, and the configurator on `configurator_key` alone.
pub fn default_keybinds(toggle_keys: Vec<u64>, configurator_key: u64) -> (binds: Vec<Keybind>)
    ensures
        binds@.len() == 2,
        binds@[0].keys@ == toggle_keys@,
        binds@[0].event == KeyEvent::ToggleOverlay,
        !binds@[0].active,
        binds@[1].keys@ == seq![configurator_key],
        binds@[1].event == KeyEvent::OpenConfigurator,
        !binds@[1].active,
{
    let mut binds: Vec<Keybind> = Vec::new();
    binds.push(Keybind::new(toggle_keys, KeyEvent::ToggleOverlay));
    let mut c: Vec<u64> = Vec::new();
    c.push(configurator_key);
    binds.push(Keybind::new(c, KeyEvent::OpenConfigurator));
    binds
}

fn same_keys(a: &Vec<u64>, b: &Vec<u64>) -> (r: bool)
    ensures
        r == (a@ == b@),
{
    if a.len() != b.len() {
        return false;
    }
    let mut i: usize = 0;
    while i < a.len()
        invariant
            i <= a.len() == b.len(),
            forall|j: int| 0 <= j < i ==> a@[j] == b@[j],
        decreases a.len() - i,
    {
        if a[i] != b[i] {
            return false;
        }
        i = i + 1;
    }
    assert(a@ =~= b@);
    true
}

/// Whether bind `b` is an overlay toggle on other keys than `keys`.
pub open spec fn stale_toggle(keys: Seq<u64>) -> spec_fn(Keybind) -> bool {
    |b: Keybind| b.event == KeyEvent::ToggleOverlay && b.keys@ != keys
}

/// Puts the configured overlay keys on the first overlay toggle bound to other
/// keys, and deactivates it.
pub fn sync_overlay_keybind(keybinds: &mut Vec<Keybind>, overlay_keys: &Vec<u64>)
    ensures
        final(keybinds)@.len() == old(keybinds)@.len(),
        match first_index(old(keybinds)@, stale_toggle(overlay_keys@)) {
            Some(i) => final(keybinds)@[i].keys@ == overlay_keys@ && final(keybinds)@[i].event
                == old(keybinds)@[i].event && !final(keybinds)@[i].active && forall|j: int|
                0 <= j < old(keybinds)@.len() && j != i ==> final(keybinds)@[j] == old(keybinds)@[j],
            None => final(keybinds)@ == old(keybinds)@,
        },
{
    let ghost all = keybinds@;
    let ghost p = stale_toggle(overlay_keys@);
    proof {
        lemma_first_index(all, p);
    }
    let mut i: usize = 0;
    while i < keybinds.len()
        invariant
            i <= keybinds.len(),
            keybinds@ == all,
            all == old(keybinds)@,
            p == stale_toggle(overlay_keys@),
            forall|j: int| 0 <= j < i ==> !p(all[j]),
            match first_index(all, p) {
                Some(k) => 0 <= k < all.len() && p(all[k]) && forall|j: int| 0 <= j < k ==> !p(all[j]),
                None => forall|j: int| 0 <= j < all.len() ==> !p(all[j]),
            },
        decreases keybinds.len() - i,
    {
        if keybinds[i].event == KeyEvent::ToggleOverlay && !same_keys(&keybinds[i].keys, overlay_keys) {
            assert(p(all[i as int]));
            assert(first_index(all, p) == Some(i as int));
            let mut bind = keybinds.remove(i);
            let keys = overlay_keys.clone();
            assert(keys@ == overlay_keys@);
            bind.keys = keys;
            bind.reset();
            keybinds.insert(i, bind);
            assert(keybinds@ == all.update(i as int, keybinds@[i as int]));
            return;
        }
        i = i + 1;
    }
}

/// The first position in `s` where `p` holds.
pub open spec fn first_index<A>(s: Seq<A>, p: spec_fn(A) -> bool) -> Option<int>
    decreases s.len(),
{
    if s.len() == 0 {
        None
    } else if p(s[0]) {
        Some(0)
    } else {
        match first_index(s.drop_first(), p) {
            Some(i) => Some(i + 1),
            None => None,
        }
    }
}

pub proof fn lemma_first_index<A>(s: Seq<A>, p: spec_fn(A) -> bool)
    ensures
        match first_index(s, p) {
            Some(k) => 0 <= k < s.len() && p(s[k]) && forall|j: int| 0 <= j < k ==> !p(s[j]),
            None => forall|j: int| 0 <= j < s.len() ==> !p(s[j]),
        },
    decreases s.len(),
{
    if s.len() > 0 && !p(s[0]) {
        lemma_first_index(s.drop_first(), p);
        assert forall|j: int| 0 < j < s.len() implies s[j] == s.drop_first()[j - 1] by {}
    }
}

/// Pressing or releasing keys never holds a key twice.
pub proof fn lemma_input_keeps_keys_distinct(pressed: Seq<u64>, input: KeyInput)
    requires
        pressed.no_duplicates(),
    ensures
        spec_apply_input(pressed, input).no_duplicates(),
{
    match input {
        KeyInput::Press(k) => {},
        KeyInput::Release(k) => {
            lemma_filter_no_duplicates(pressed, other_than(k));
        },
        KeyInput::Other => {},
    }
}

proof fn lemma_filter_no_duplicates(s: Seq<u64>, p: spec_fn(u64) -> bool)
    requires
        s.no_duplicates(),
    ensures
        s.filter(p).no_duplicates(),
    decreases s.len(),
{
    if s.len() > 0 {
        let init = s.drop_last();
        lemma_filter_no_duplicates(init, p);
        assert(s == init.push(s.last()));
        init.lemma_filter_push(s.last(), p);
        if p(s.last()) {
            assert(!init.filter(p).contains(s.last())) by {
                if init.filter(p).contains(s.last()) {
                    init.lemma_filter_contains_rev(p, s.last());
                    let m = choose|m: int| 0 <= m < init.len() && init[m] == s.last();
                    assert(s[m] == s[s.len() - 1]);
                }
            }
        }
    }
}

/// Pressing a key that is not held and releasing it again leaves the held
/// keys as they were.
pub proof fn lemma_press_release(pressed: Seq<u64>, key: u64)
    requires
        !pressed.contains(key),
    ensures
        spec_release(spec_press(pressed, key), key) == pressed,
{
    lemma_filter_keeps_all(pressed, key);
    pressed.lemma_filter_push(key, other_than(key));
}

proof fn lemma_filter_keeps_all(s: Seq<u64>, key: u64)
    requires
        !s.contains(key),
    ensures
        s.filter(other_than(key)) == s,
    decreases s.len(),
{
    if s.len() > 0 {
        let init = s.drop_last();
        assert(!init.contains(key)) by {
            if init.contains(key) {
                let m = choose|m: int| 0 <= m < init.len() && init[m] == key;
                assert(s[m] == key);
            }
        }
        lemma_filter_keeps_all(init, key);
        assert(s == init.push(s.last()));
        init.lemma_filter_push(s.last(), other_than(key));
        assert(s.last() != key);
    }
}

/// Holding keys down, whose key repeat sends presses of keys already held,
/// fires nothing more once the binds follow the held keys.
pub proof fn lemma_repeat_fires_nothing(binds: Seq<Keybind>, pressed: Seq<u64>, key: u64)
    requires
        pressed.contains(key),
        forall|i: int| 0 <= i < binds.len() ==> (#[trigger] binds[i]).active == spec_matches(binds[i].keys@, pressed),
    ensures
        spec_apply_input(pressed, KeyInput::Press(key)) == pressed,
        spec_fired(binds, spec_apply_input(pressed, KeyInput::Press(key))).len() == 0,
{
    let p = fires(pressed);
    assert forall|i: int| 0 <= i < binds.len() implies !p(#[trigger] binds[i]) by {}
    binds.lemma_all_neg_filter_empty(p);
}

} // verus!
