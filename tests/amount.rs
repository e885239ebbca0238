use ledger_core::amount::{Amount, AmountError, MAX_AMOUNT, MIN_AMOUNT};

#[test]
fn test_negative_amount() {
    // ten units below the minimum, in hundredths
    let given_amount = MIN_AMOUNT - 1000;

    let amount = Amount::new(given_amount);

    assert!(amount.is_err());
    assert_eq!(amount.err().unwrap(), AmountError::MinValue(given_amount))
}

#[test]
fn test_more_than_maximum_amount() {
    let given_amount = MAX_AMOUNT + 100;

    let amount = Amount::new(given_amount);

    assert!(amount.is_err());
    assert_eq!(amount.err().unwrap(), AmountError::MaxValue(given_amount))
}

#[test]
fn test_error_messages() {
    let given_amount = MIN_AMOUNT - 1000;
    let value = match Amount::new(given_amount) {
        Ok(value) => value,
        Err(error) => {
            assert_eq!(
                error.to_string(),
                format!(
                    "invalid amount value: {}, must be greater than the minimum value {}",
                    given_amount, MIN_AMOUNT
                )
            );
            Amount::new(1000).unwrap()
        }
    };

    println!("{:?}", value);
}

#[test]
fn amount_bounds_are_inclusive() {
    assert_eq!(Amount::new(-100).err().unwrap(), AmountError::MinValue(-100));
    assert_eq!(
        Amount::new(MAX_AMOUNT + 100).err().unwrap(),
        AmountError::MaxValue(MAX_AMOUNT + 100)
    );
    assert_eq!(Amount::new(0).unwrap().value(), 0);
    assert_eq!(Amount::new(MAX_AMOUNT).unwrap().value(), MAX_AMOUNT);
    assert_eq!(Amount::new(MAX_AMOUNT + 1).err().unwrap(), AmountError::MaxValue(MAX_AMOUNT + 1));
    assert_eq!(Amount::new(-1).err().unwrap(), AmountError::MinValue(-1));
}

#[test]
fn max_value_message_names_the_bound() {
    let error = Amount::new(MAX_AMOUNT + 100).err().unwrap();
    assert_eq!(
        error.to_string(),
        "invalid amount value: 100000100, must be less than the maximum value 100000000"
    );
}

#[test]
fn checked_arithmetic_revalidates_bounds() {
    let a = Amount::new(7000).unwrap();
    let b = Amount::new(3000).unwrap();
    assert_eq!(a.checked_add(&b).unwrap().value(), 10000);
    assert_eq!(a.checked_sub(&b).unwrap().value(), 4000);
    assert_eq!(b.checked_sub(&a).err().unwrap(), AmountError::MinValue(-4000));
    let max = Amount::new(MAX_AMOUNT).unwrap();
    assert_eq!(
        max.checked_add(&b).err().unwrap(),
        AmountError::MaxValue(MAX_AMOUNT + 3000)
    );
    assert_eq!(Amount::zero().value(), 0);
}
