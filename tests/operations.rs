use ledger_pallet::{
    Call, Error, Event, Hash256, InvalidTransaction, MyWeightFunction, Origin, Pallet, Randomness,
    ValidTransaction, MAX_PRICES,
};

const A: u64 = 1;
const AUTHORITY: u64 = 99;

struct Fixed(Hash256);

impl Randomness for Fixed {
    fn random(&self, _subject: &Vec<u8>) -> Hash256 {
        self.0
    }
}

/// Draws the first byte from the subject, so that the draw follows the nonce.
struct FromSubject;

impl Randomness for FromSubject {
    fn random(&self, subject: &Vec<u8>) -> Hash256 {
        let mut h = [0u8; 32];
        h[0] = subject[0];
        h
    }
}

#[test]
fn authority_sets_value() {
    let mut p = Pallet::new(AUTHORITY, 0);
    assert_eq!(p.set_important_val(Origin::Signed(AUTHORITY), 42), Ok(()));
    assert_eq!(p.get_important_val(), 42);
    assert_eq!(p.events().clone(), vec![Event::ImportantValSet(AUTHORITY, 42)]);
}

#[test]
fn others_cannot_set_value() {
    let mut p = Pallet::new(AUTHORITY, 0);
    p.set_important_val(Origin::Signed(AUTHORITY), 7).unwrap();
    assert_eq!(p.set_important_val(Origin::Signed(A), 42), Err(Error::Unauthorized));
    assert_eq!(p.set_important_val(Origin::Unsigned, 42), Err(Error::Unauthorized));
    assert_eq!(p.get_important_val(), 7);
    assert_eq!(p.events().len(), 1);
}

#[test]
fn right_guess_wins() {
    let mut p = Pallet::new(AUTHORITY, 0);
    let source = Fixed([7u8; 32]);
    assert_eq!(p.guess(&source, Origin::Signed(A), [7u8; 32]), Ok(()));
    assert_eq!(p.get_winner(), Some(A));
    assert_eq!(p.get_nonce(), 1);
    assert_eq!(p.events().clone(), vec![Event::NewWinner(A)]);
}

#[test]
fn wrong_guess_still_uses_nonce() {
    let mut p = Pallet::new(AUTHORITY, 0);
    let source = Fixed([7u8; 32]);
    let mut wrong = [7u8; 32];
    wrong[31] = 8;
    assert_eq!(p.guess(&source, Origin::Signed(A), wrong), Err(Error::IncorrectGuess));
    assert_eq!(p.get_nonce(), 1);
    assert_eq!(p.get_winner(), None);
    assert!(p.events().is_empty());
    assert_eq!(p.guess(&source, Origin::Unsigned, [7u8; 32]), Err(Error::BadOrigin));
    assert_eq!(p.get_nonce(), 1);
}

#[test]
fn draw_follows_nonce() {
    let mut p = Pallet::new(AUTHORITY, 0);
    let mut expect_zero = [0u8; 32];
    assert_eq!(p.guess(&FromSubject, Origin::Signed(A), expect_zero), Ok(()));
    expect_zero[0] = 1;
    assert_eq!(p.guess(&FromSubject, Origin::Signed(2), expect_zero), Ok(()));
    assert_eq!(p.get_winner(), Some(2));
    assert_eq!(p.get_nonce(), 2);
}

#[test]
fn resolve_guess_compares_every_byte() {
    let mut p = Pallet::new(AUTHORITY, 0);
    let target = [3u8; 32];
    let mut guess = target;
    guess[0] = 4;
    assert_eq!(p.resolve_guess(A, &guess, &target), Err(Error::IncorrectGuess));
    assert_eq!(p.get_nonce(), 0);
    assert_eq!(p.resolve_guess(A, &target, &target), Ok(()));
    assert_eq!(p.get_winner(), Some(A));
}

#[test]
fn nonce_is_encoded_little_endian() {
    let mut p = Pallet::new(AUTHORITY, 0);
    assert_eq!(p.get_and_increment_nonce(), vec![0u8; 8]);
    assert_eq!(p.get_and_increment_nonce(), vec![1, 0, 0, 0, 0, 0, 0, 0]);
    for _ in 0..300 {
        p.get_and_increment_nonce();
    }
    assert_eq!(p.get_nonce(), 302);
    assert_eq!(p.get_and_increment_nonce(), vec![0x2e, 0x01, 0, 0, 0, 0, 0, 0]);
}

#[test]
fn price_list_stays_within_capacity() {
    let mut p = Pallet::new(AUTHORITY, 0);
    let cap = MAX_PRICES as usize;
    for i in 0..cap {
        assert_eq!(p.submit_price_unsigned(Origin::Unsigned, i as u64, 100 + i as u32), Ok(()));
        assert_eq!(p.prices().len(), i + 1);
    }
    assert_eq!(p.submit_price_unsigned(Origin::Unsigned, 99, 170), Ok(()));
    assert_eq!(p.prices().len(), cap);
    let mut expected: Vec<u32> = (0..cap as u32).map(|i| 100 + i).collect();
    // 170 % 16 == 10
    expected[10] = 170;
    assert_eq!(p.prices().clone(), expected);
    assert_eq!(p.events().len(), cap + 1);
    assert_eq!(
        p.events().last(),
        Some(&Event::NewPrice { price: 170, block_number: 99, maybe_who: None })
    );
}

#[test]
fn full_price_list_replaces_slot_zero() {
    let mut p = Pallet::new(AUTHORITY, 0);
    for _ in 0..MAX_PRICES {
        p.submit_price_unsigned(Origin::Unsigned, 1, 1).unwrap();
    }
    p.submit_price_unsigned(Origin::Unsigned, 2, 32).unwrap();
    assert_eq!(p.prices()[0], 32);
    assert_eq!(p.prices().len(), MAX_PRICES as usize);
}

#[test]
fn signed_price_submission_is_refused() {
    let mut p = Pallet::new(AUTHORITY, 0);
    assert_eq!(p.submit_price_unsigned(Origin::Signed(A), 1, 5), Err(Error::BadOrigin));
    assert!(p.prices().is_empty());
}

#[test]
fn average_price_rounds_down_and_saturates() {
    let mut p = Pallet::new(AUTHORITY, 0);
    assert_eq!(p.average_price(), None);
    p.submit_price_unsigned(Origin::Unsigned, 1, 10).unwrap();
    p.submit_price_unsigned(Origin::Unsigned, 1, 21).unwrap();
    assert_eq!(p.average_price(), Some(15));
    p.submit_price_unsigned(Origin::Unsigned, 1, u32::MAX).unwrap();
    p.submit_price_unsigned(Origin::Unsigned, 1, 5).unwrap();
    assert_eq!(p.average_price(), Some(u32::MAX / 4));
}

#[test]
fn validate_unsigned_admits_price_submissions_only() {
    let mut p = Pallet::new(AUTHORITY, 100);
    assert_eq!(
        p.validate_unsigned(&Call::SubmitPriceUnsigned { block_number: 9, price: 50 }),
        Ok(ValidTransaction { priority: 100, provides: (9, 50), longevity: 5, propagate: true })
    );
    p.submit_price_unsigned(Origin::Unsigned, 1, 80).unwrap();
    assert_eq!(
        p.validate_unsigned(&Call::SubmitPriceUnsigned { block_number: 9, price: 50 }),
        Ok(ValidTransaction { priority: 130, provides: (9, 50), longevity: 5, propagate: true })
    );
    assert_eq!(
        p.validate_unsigned(&Call::SubmitPriceUnsigned { block_number: 2, price: 90 }),
        Ok(ValidTransaction { priority: 110, provides: (2, 90), longevity: 5, propagate: true })
    );
    assert_eq!(
        p.validate_unsigned(&Call::Transfer { to: A, amount: 1 }),
        Err(InvalidTransaction::Call)
    );
}

#[test]
fn validate_unsigned_priority_saturates() {
    let mut p = Pallet::new(AUTHORITY, u64::MAX - 1);
    p.submit_price_unsigned(Origin::Unsigned, 1, 80).unwrap();
    let v = p.validate_unsigned(&Call::SubmitPriceUnsigned { block_number: 1, price: 0 });
    assert_eq!(v.unwrap().priority, u64::MAX);
}

#[test]
fn find_important_value_checks_first_amount() {
    let mut p = Pallet::new(AUTHORITY, 0);
    assert_eq!(p.find_important_value(Origin::Signed(A), vec![]), Err(Error::InvalidInput));
    assert_eq!(
        p.find_important_value(Origin::Signed(A), vec![1000, 5000]),
        Err(Error::NoImportantValueFound)
    );
    assert_eq!(p.get_val(), 0);
    assert_eq!(p.find_important_value(Origin::Signed(A), vec![1001, 3]), Ok(()));
    assert_eq!(p.get_val(), 1001);
    assert_eq!(p.events().clone(), vec![Event::FoundVal(A, 1001)]);
    assert_eq!(p.find_important_value(Origin::Unsigned, vec![2000]), Err(Error::BadOrigin));
}

#[test]
fn do_work_stores_amounts() {
    let mut p = Pallet::new(AUTHORITY, 0);
    assert_eq!(p.do_work(Origin::Signed(A), vec![4, 5, 6]), Ok(()));
    assert_eq!(p.useful_amounts().clone(), vec![4, 5, 6]);
    assert_eq!(p.events().clone(), vec![Event::DidWork(A)]);
    assert_eq!(p.do_work(Origin::Unsigned, vec![1]), Err(Error::BadOrigin));
    assert_eq!(p.useful_amounts().clone(), vec![4, 5, 6]);
}

#[test]
fn weight_grows_with_input() {
    let w = MyWeightFunction(10_000_000);
    assert_eq!(w.weigh_data(&vec![]), 0);
    assert_eq!(w.weigh_data(&vec![1, 2, 3]), 30_000_000);
    let big = MyWeightFunction(u64::MAX / 2);
    assert_eq!(big.weigh_data(&vec![1, 2, 3]), u64::MAX);
}

#[test]
fn dispatch_routes_calls() {
    let mut p = Pallet::new(AUTHORITY, 0);
    let source = Fixed([1u8; 32]);
    assert_eq!(p.dispatch(&source, Origin::Signed(A), Call::Init { supply: 0 }), Ok(()));
    assert_eq!(p.dispatch(&source, Origin::Signed(A), Call::Transfer { to: 2, amount: 10 }), Ok(()));
    assert_eq!(p.get_balance(2), 10);
    assert_eq!(p.dispatch(&source, Origin::Signed(A), Call::Mint { amount: 5 }), Ok(()));
    assert_eq!(p.get_balance(A), 995);
    assert_eq!(
        p.dispatch(&source, Origin::Signed(A), Call::SetImportantVal { new_val: 3 }),
        Err(Error::Unauthorized)
    );
    assert_eq!(p.dispatch(&source, Origin::Signed(A), Call::Guess { guess: [1u8; 32] }), Ok(()));
    assert_eq!(p.get_winner(), Some(A));
    assert_eq!(
        p.dispatch(&source, Origin::Unsigned, Call::SubmitPriceUnsigned { block_number: 4, price: 12 }),
        Ok(())
    );
    assert_eq!(p.prices().clone(), vec![12]);
    assert_eq!(
        p.dispatch(&source, Origin::Signed(A), Call::FindImportantValue { useful_amounts: vec![2000] }),
        Ok(())
    );
    assert_eq!(p.get_val(), 2000);
    assert_eq!(
        p.dispatch(&source, Origin::Signed(A), Call::DoWork { useful_amounts: vec![8] }),
        Ok(())
    );
    assert_eq!(p.useful_amounts().clone(), vec![8]);
}

#[test]
fn call_weights_follow_input_size() {
    assert_eq!(Call::Transfer { to: A, amount: 5 }.weight(), 10_000);
    assert_eq!(Call::SubmitPriceUnsigned { block_number: 1, price: 2 }.weight(), 10_000);
    assert_eq!(Call::DoWork { useful_amounts: vec![] }.weight(), 10_000);
    assert_eq!(Call::DoWork { useful_amounts: vec![1, 2] }.weight(), 20_010_000);
    assert_eq!(Call::FindImportantValue { useful_amounts: vec![] }.weight(), 10_000);
    assert_eq!(Call::FindImportantValue { useful_amounts: vec![1, 2, 3] }.weight(), 13_000);
}

#[test]
fn signed_price_submission_records_submitter() {
    let mut p = Pallet::new(AUTHORITY, 0);
    assert_eq!(p.submit_price(Origin::Signed(A), 7, 55), Ok(()));
    assert_eq!(p.prices().clone(), vec![55]);
    assert_eq!(
        p.events().clone(),
        vec![Event::NewPrice { price: 55, block_number: 7, maybe_who: Some(A) }]
    );
    assert_eq!(p.submit_price(Origin::Unsigned, 7, 56), Err(Error::BadOrigin));
    assert_eq!(p.prices().len(), 1);
    assert_eq!(
        p.dispatch(&Fixed([0u8; 32]), Origin::Signed(A), Call::SubmitPrice { block_number: 8, price: 60 }),
        Ok(())
    );
    assert_eq!(p.prices().clone(), vec![55, 60]);
}

#[test]
fn record_first_amount_keeps_positive_first() {
    let mut p = Pallet::new(AUTHORITY, 0);
    assert_eq!(p.record_first_amount(Origin::Signed(A), vec![]), Err(Error::InvalidInput));
    assert!(p.events().is_empty());
    assert_eq!(p.record_first_amount(Origin::Signed(A), vec![5, 9]), Ok(()));
    assert_eq!(p.get_val(), 5);
    assert_eq!(p.record_first_amount(Origin::Signed(A), vec![0]), Ok(()));
    assert_eq!(p.get_val(), 5);
    assert_eq!(p.events().clone(), vec![Event::FoundVal(A, 5), Event::FoundVal(A, 0)]);
    assert_eq!(p.record_first_amount(Origin::Unsigned, vec![3]), Err(Error::BadOrigin));
    assert_eq!(Call::RecordFirstAmount { useful_amounts: vec![1, 2] }.weight(), 12_000);
}
