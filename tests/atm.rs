use powchain::atm::{pin_hash, withdraw, Action, Atm, Auth, Key};

#[test]
fn sm_3_simple_swipe_card() {
    let start = Atm { cash_inside: 10, expected_pin_hash: Auth::Waiting, keystroke_register: Vec::new() };
    let end = Atm::next_state(&start, &Action::SwipeCard(1234));
    let expected = Atm {
        cash_inside: 10,
        expected_pin_hash: Auth::Authenticating(1234),
        keystroke_register: Vec::new(),
    };
    assert_eq!(end, expected);
}

#[test]
fn sm_3_swipe_card_again_part_way_through() {
    let start = Atm {
        cash_inside: 10,
        expected_pin_hash: Auth::Authenticating(1234),
        keystroke_register: Vec::new(),
    };
    let end = Atm::next_state(&start, &Action::SwipeCard(1234));
    let expected = Atm {
        cash_inside: 10,
        expected_pin_hash: Auth::Authenticating(1234),
        keystroke_register: Vec::new(),
    };
    assert_eq!(end, expected);

    let start = Atm {
        cash_inside: 10,
        expected_pin_hash: Auth::Authenticating(1234),
        keystroke_register: vec![Key::One, Key::Three],
    };
    let end = Atm::next_state(&start, &Action::SwipeCard(1234));
    let expected = Atm {
        cash_inside: 10,
        expected_pin_hash: Auth::Authenticating(1234),
        keystroke_register: vec![Key::One, Key::Three],
    };
    assert_eq!(end, expected);
}

#[test]
fn sm_3_press_key_before_card_swipe() {
    let start = Atm { cash_inside: 10, expected_pin_hash: Auth::Waiting, keystroke_register: Vec::new() };
    let end = Atm::next_state(&start, &Action::PressKey(Key::One));
    let expected = Atm { cash_inside: 10, expected_pin_hash: Auth::Waiting, keystroke_register: Vec::new() };
    assert_eq!(end, expected);
}

#[test]
fn sm_3_enter_single_digit_of_pin() {
    let start = Atm {
        cash_inside: 10,
        expected_pin_hash: Auth::Authenticating(1234),
        keystroke_register: Vec::new(),
    };
    let end = Atm::next_state(&start, &Action::PressKey(Key::One));
    let expected = Atm {
        cash_inside: 10,
        expected_pin_hash: Auth::Authenticating(1234),
        keystroke_register: vec![Key::One],
    };
    assert_eq!(end, expected);

    let start = Atm {
        cash_inside: 10,
        expected_pin_hash: Auth::Authenticating(1234),
        keystroke_register: vec![Key::One],
    };
    let end1 = Atm::next_state(&start, &Action::PressKey(Key::Two));
    let expected1 = Atm {
        cash_inside: 10,
        expected_pin_hash: Auth::Authenticating(1234),
        keystroke_register: vec![Key::One, Key::Two],
    };
    assert_eq!(end1, expected1);
}

#[test]
fn sm_3_enter_wrong_pin() {
    let pin = vec![Key::One, Key::Two, Key::Three, Key::Four];
    let pin_hash = pin_hash(&pin);
    let start = Atm {
        cash_inside: 10,
        expected_pin_hash: Auth::Authenticating(pin_hash),
        keystroke_register: vec![Key::Three, Key::Three, Key::Three, Key::Three],
    };
    let end = Atm::next_state(&start, &Action::PressKey(Key::Enter));
    let expected = Atm { cash_inside: 10, expected_pin_hash: Auth::Waiting, keystroke_register: Vec::new() };
    assert_eq!(end, expected);
}

#[test]
fn sm_3_enter_correct_pin() {
    let pin = vec![Key::One, Key::Two, Key::Three, Key::Four];
    let pin_hash = pin_hash(&pin);
    let start = Atm {
        cash_inside: 10,
        expected_pin_hash: Auth::Authenticating(pin_hash),
        keystroke_register: vec![Key::One, Key::Two, Key::Three, Key::Four],
    };
    let end = Atm::next_state(&start, &Action::PressKey(Key::Enter));
    let expected = Atm {
        cash_inside: 10,
        expected_pin_hash: Auth::Authenticated,
        keystroke_register: Vec::new(),
    };
    assert_eq!(end, expected);
}

#[test]
fn sm_3_enter_single_digit_of_withdraw_amount() {
    let start = Atm { cash_inside: 10, expected_pin_hash: Auth::Authenticated, keystroke_register: Vec::new() };
    let end = Atm::next_state(&start, &Action::PressKey(Key::One));
    let expected = Atm {
        cash_inside: 10,
        expected_pin_hash: Auth::Authenticated,
        keystroke_register: vec![Key::One],
    };
    assert_eq!(end, expected);

    let start = Atm {
        cash_inside: 10,
        expected_pin_hash: Auth::Authenticated,
        keystroke_register: vec![Key::One],
    };
    let end1 = Atm::next_state(&start, &Action::PressKey(Key::Four));
    let expected1 = Atm {
        cash_inside: 10,
        expected_pin_hash: Auth::Authenticated,
        keystroke_register: vec![Key::One, Key::Four],
    };
    assert_eq!(end1, expected1);
}

#[test]
fn sm_3_try_to_withdraw_too_much() {
    let start = Atm {
        cash_inside: 10,
        expected_pin_hash: Auth::Authenticated,
        keystroke_register: vec![Key::One, Key::Four],
    };
    let end = Atm::next_state(&start, &Action::PressKey(Key::Enter));
    let expected = Atm { cash_inside: 10, expected_pin_hash: Auth::Waiting, keystroke_register: Vec::new() };
    assert_eq!(end, expected);
}

#[test]
fn sm_3_withdraw_acceptable_amount() {
    let start = Atm {
        cash_inside: 10,
        expected_pin_hash: Auth::Authenticated,
        keystroke_register: vec![Key::One],
    };
    let end = Atm::next_state(&start, &Action::PressKey(Key::Enter));
    let expected = Atm { cash_inside: 9, expected_pin_hash: Auth::Waiting, keystroke_register: Vec::new() };
    assert_eq!(end, expected);
}

#[test]
fn withdraw_spells_decimal_amounts() {
    assert_eq!(withdraw(1000, &vec![Key::Four, Key::Two, Key::One]), 579);
    assert_eq!(withdraw(421, &vec![Key::Four, Key::Two, Key::One]), 0);
    assert_eq!(withdraw(420, &vec![Key::Four, Key::Two, Key::One]), 420);
    assert_eq!(withdraw(7, &vec![]), 7);
    assert_eq!(withdraw(50, &vec![Key::One, Key::Enter, Key::Two]), 38);
}

#[test]
fn withdraw_huge_amount_keeps_cash() {
    let keys = vec![Key::Four; 30];
    assert_eq!(withdraw(u64::MAX, &keys), u64::MAX);
    assert_eq!(withdraw(u64::MAX, &vec![Key::One]), u64::MAX - 1);
}

#[test]
fn pin_hash_tells_pins_apart() {
    let a = pin_hash(&vec![Key::One, Key::Two]);
    let b = pin_hash(&vec![Key::Two, Key::One]);
    assert_ne!(a, b);
    assert_eq!(a, pin_hash(&vec![Key::One, Key::Two]));
}

#[test]
fn swipe_while_authenticated_clears_register() {
    let start = Atm {
        cash_inside: 5,
        expected_pin_hash: Auth::Authenticated,
        keystroke_register: vec![Key::Two],
    };
    let end = Atm::next_state(&start, &Action::SwipeCard(77));
    let expected = Atm { cash_inside: 5, expected_pin_hash: Auth::Authenticated, keystroke_register: Vec::new() };
    assert_eq!(end, expected);
}

#[test]
fn transition_uses_given_digest() {
    let start = Atm {
        cash_inside: 5,
        expected_pin_hash: Auth::Authenticating(9),
        keystroke_register: vec![Key::Two],
    };
    let ok = Atm::transition(&start, &Action::PressKey(Key::Enter), 9);
    assert_eq!(ok.expected_pin_hash, Auth::Authenticated);
    let bad = Atm::transition(&start, &Action::PressKey(Key::Enter), 8);
    assert_eq!(bad.expected_pin_hash, Auth::Waiting);
}
