//! A cash machine driven by card swipes and a keypad. After a card is swiped
//! it collects keys until `Enter`, compares their digest with the card's pin
//! digest, then collects the digits of an amount and pays it out if it holds
//! that much cash.
use vstd::prelude::*;

verus! {

/// The keys on the keypad.
#[derive(Clone, Copy, Debug, PartialEq, Eq, Hash, Structural)]
pub enum Key {
    One,
    Two,
    Three,
    Four,
    Enter,
}

/// Something a customer does to the machine.
#[derive(Clone, Copy, Debug, PartialEq, Eq, Structural)]
pub enum Action {
    /// Swipe a card carrying the digest of the pin to be keyed in next.
    SwipeCard(u64),
    /// Press a key on the keypad.
    PressKey(Key),
}

/// How far the current customer has authenticated.
#[derive(Clone, Copy, Debug, PartialEq, Eq, Structural)]
pub enum Auth {
    /// No session: waiting for a card.
    Waiting,
    /// A card with this pin digest was swiped: waiting for the pin.
    Authenticating(u64),
    /// The pin was right: waiting for an amount.
    Authenticated,
}

/// The machine.
#[derive(Clone, Debug, PartialEq, Eq)]
pub struct Atm {
    /// How much cash the machine holds.
    pub cash_inside: u64,
    /// The authentication status.
    pub expected_pin_hash: Auth,
    /// The keys pressed since the last `Enter`.
    pub keystroke_register: Vec<Key>,
}

/// The abstract state of the machine.
pub ghost struct AtmView {
    pub cash: u64,
    pub auth: Auth,
    pub register: Seq<Key>,
}

impl View for Atm {
    type V = AtmView;

    open spec fn view(&self) -> AtmView {
        AtmView { cash: self.cash_inside, auth: self.expected_pin_hash, register: self.keystroke_register@ }
    }
}

/// The digest of a sequence of keys, as the standard library's default hasher
/// computes it.
pub uninterp spec fn keys_digest(keys: Seq<Key>) -> u64;

/// Relies on `BuildHasher::hash_one` of std's `DefaultHasher`: a hasher built by
/// `DefaultHasher::new` starts from fixed keys, so the digest depends on the
/// keys alone.
#[verifier::external_body]
fn digest_keys(keys: &Vec<Key>) -> (r: u64)
    ensures
        r == keys_digest(keys@),
{
    std::hash::BuildHasher::hash_one(
        &std::hash::BuildHasherDefault::<std::collections::hash_map::DefaultHasher>::default(),
        keys,
    )
}

/// Computes the pin digest of a sequence of keys, as a card carries it.
pub fn pin_hash(keys: &Vec<Key>) -> (r: u64)
    ensures
        r == keys_digest(keys@),
{
    digest_keys(keys)
}

/// The digit a key stands for; `Enter` stands for none.
pub open spec fn digit_of(k: Key) -> nat {
    match k {
        Key::One => 1,
        Key::Two => 2,
        Key::Three => 3,
        Key::Four => 4,
        Key::Enter => 0,
    }
}

/// The decimal number that the digit keys of `keys` spell, `Enter` skipped.
pub open spec fn amount_of(keys: Seq<Key>) -> nat
    decreases keys.len(),
{
    if keys.len() == 0 {
        0
    } else if keys.last() == Key::Enter {
        amount_of(keys.drop_last())
    } else {
        amount_of(keys.drop_last()) * 10 + digit_of(keys.last())
    }
}

/// The cash left after asking for `amount`: paid out only when it is there.
pub open spec fn cash_after(cash: u64, amount: nat) -> u64 {
    if amount <= cash {
        (cash - amount) as u64
    } else {
        cash
    }
}

/// The state after `t`, where `entered` is the digest of the keys registered
/// so far.
pub open spec fn spec_transition(v: AtmView, t: Action, entered: u64) -> AtmView {
    match t {
        Action::PressKey(key) => match v.auth {
            Auth::Waiting => AtmView { cash: v.cash, auth: Auth::Waiting, register: Seq::empty() },
            Auth::Authenticating(pin) => if key == Key::Enter {
                AtmView {
                    cash: v.cash,
                    auth: if entered == pin { Auth::Authenticated } else { Auth::Waiting },
                    register: Seq::empty(),
                }
            } else {
                AtmView { cash: v.cash, auth: v.auth, register: v.register.push(key) }
            },
            Auth::Authenticated => if key == Key::Enter {
                AtmView { cash: cash_after(v.cash, amount_of(v.register)), auth: Auth::Waiting, register: Seq::empty() }
            } else {
                AtmView { cash: v.cash, auth: v.auth, register: v.register.push(key) }
            },
        },
        Action::SwipeCard(pin) => match v.auth {
            Auth::Waiting => AtmView { cash: v.cash, auth: Auth::Authenticating(pin), register: Seq::empty() },
            Auth::Authenticating(_) => v,
            Auth::Authenticated => AtmView { cash: v.cash, auth: Auth::Authenticated, register: Seq::empty() },
        },
    }
}

/// The state after `t`.
pub open spec fn spec_next_state(v: AtmView, t: Action) -> AtmView {
    spec_transition(v, t, keys_digest(v.register))
}

/// Copies a sequence of keys.
fn copy_keys(keys: &Vec<Key>) -> (r: Vec<Key>)
    ensures
        r@ == keys@,
{
    let mut r: Vec<Key> = Vec::new();
    let mut i: usize = 0;
    while i < keys.len()
        invariant
            0 <= i <= keys@.len(),
            r@ == keys@.take(i as int),
        decreases keys@.len() - i,
    {
        r.push(keys[i]);
        i = i + 1;
        assert(r@ =~= keys@.take(i as int));
    }
    assert(keys@.take(i as int) =~= keys@);
    r
}

/// Pays out the amount that `keys` spell if `cash` covers it, and returns the
/// cash left.
pub fn withdraw(cash: u64, keys: &Vec<Key>) -> (r: u64)
    ensures
        r == cash_after(cash, amount_of(keys@)),
{
    let mut acc: u64 = 0;
    let mut too_much = false;
    let mut i: usize = 0;
    while i < keys.len()
        invariant
            0 <= i <= keys@.len(),
            too_much ==> amount_of(keys@.take(i as int)) > cash,
            !too_much ==> acc == amount_of(keys@.take(i as int)) && acc <= cash,
        decreases keys@.len() - i,
    {
        let key = keys[i];
        proof {
            let next = keys@.take(i + 1);
            assert(next.drop_last() =~= keys@.take(i as int));
            assert(next.last() == key);
        }
        if !too_much && key != Key::Enter {
            let d: u64 = match key {
                Key::One => 1,
                Key::Two => 2,
                Key::Three => 3,
                Key::Four => 4,
                Key::Enter => 0,
            };
            assert(d == digit_of(key) && d <= 4);
            if acc > cash / 10 {
                proof {
                    let a = acc as int;
                    let c = cash as int;
                    assert(a * 10 + d > c) by (nonlinear_arith)
                        requires
                            a > c / 10,
                            c >= 0,
                            d >= 0,
                    ;
                }
                too_much = true;
            } else {
                assert(acc * 10 <= cash) by (nonlinear_arith)
                    requires
                        acc <= cash / 10,
                ;
                let t = acc * 10;
                if cash - t < d {
                    too_much = true;
                } else {
                    acc = t + d;
                }
            }
        }
        i = i + 1;
    }
    assert(keys@.take(i as int) =~= keys@);
    if too_much {
        cash
    } else {
        cash - acc
    }
}

impl Atm {
    /// Returns the state after `t`, where `entered_pin_hash` is the digest of
    /// the keys registered so far.
    pub fn transition(starting_state: &Atm, t: &Action, entered_pin_hash: u64) -> (r: Atm)
        ensures
            r@ == spec_transition(starting_state@, *t, entered_pin_hash),
    {
        let cash = starting_state.cash_inside;
        match t {
            Action::PressKey(key) => match starting_state.expected_pin_hash {
                Auth::Waiting => Atm { cash_inside: cash, expected_pin_hash: Auth::Waiting, keystroke_register: Vec::new() },
                Auth::Authenticating(pin) => {
                    if *key == Key::Enter {
                        let auth = if entered_pin_hash == pin { Auth::Authenticated } else { Auth::Waiting };
                        Atm { cash_inside: cash, expected_pin_hash: auth, keystroke_register: Vec::new() }
                    } else {
                        let mut register = copy_keys(&starting_state.keystroke_register);
                        register.push(*key);
                        Atm { cash_inside: cash, expected_pin_hash: starting_state.expected_pin_hash, keystroke_register: register }
                    }
                },
                Auth::Authenticated => {
                    if *key == Key::Enter {
                        let left = withdraw(cash, &starting_state.keystroke_register);
                        Atm { cash_inside: left, expected_pin_hash: Auth::Waiting, keystroke_register: Vec::new() }
                    } else {
                        let mut register = copy_keys(&starting_state.keystroke_register);
                        register.push(*key);
                        Atm { cash_inside: cash, expected_pin_hash: Auth::Authenticated, keystroke_register: register }
                    }
                },
            },
            Action::SwipeCard(pin) => match starting_state.expected_pin_hash {
                Auth::Waiting => Atm { cash_inside: cash, expected_pin_hash: Auth::Authenticating(*pin), keystroke_register: Vec::new() },
                Auth::Authenticating(_) => Atm {
                    cash_inside: cash,
                    expected_pin_hash: starting_state.expected_pin_hash,
                    keystroke_register: copy_keys(&starting_state.keystroke_register),
                },
                Auth::Authenticated => Atm { cash_inside: cash, expected_pin_hash: Auth::Authenticated, keystroke_register: Vec::new() },
            },
        }
    }

    /// Returns the state after `t`.
    pub fn next_state(starting_state: &Atm, t: &Action) -> (r: Atm)
        ensures
            r@ == spec_next_state(starting_state@, *t),
    {
        let entered = pin_hash(&starting_state.keystroke_register);
        Atm::transition(starting_state, t, entered)
    }
}

} // verus!
