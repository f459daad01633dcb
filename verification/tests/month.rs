use doomsday::Error;
use doomsday::Month;

#[test]
fn test_month_from_ordinal() {
    assert_eq!(Ok(Month::January), Month::from_ordinal(1));
    assert_eq!(Ok(Month::February), Month::from_ordinal(2));
    assert_eq!(Ok(Month::June), Month::from_ordinal(6));
    assert_eq!(Ok(Month::December), Month::from_ordinal(12));
}

#[test]
fn test_month_from_ordinal_invalid() {
    assert_eq!(Err(Error::InvalidOrdinal(0)), Month::from_ordinal(0));
    assert_eq!(Err(Error::InvalidOrdinal(13)), Month::from_ordinal(13));
    assert_eq!(Err(Error::InvalidOrdinal(100)), Month::from_ordinal(100));
}

#[test]
fn test_month_ordinal_round_trip() {
    let months = [
        Month::January,
        Month::February,
        Month::March,
        Month::April,
        Month::May,
        Month::June,
        Month::July,
        Month::August,
        Month::September,
        Month::October,
        Month::November,
        Month::December,
    ];
    for month in months {
        assert_eq!(Ok(month), Month::from_ordinal(month.to_ordinal()));
    }
}

#[test]
fn test_month_to_ordinal() {
    assert_eq!(1, Month::January.to_ordinal());
    assert_eq!(4, Month::April.to_ordinal());
    assert_eq!(12, Month::December.to_ordinal());
}

#[test]
fn test_month_names() {
    assert_eq!("January", Month::January.name());
    assert_eq!("February", Month::February.name());
    assert_eq!("March", Month::March.name());
    assert_eq!("April", Month::April.name());
    assert_eq!("May", Month::May.name());
    assert_eq!("June", Month::June.name());
    assert_eq!("July", Month::July.name());
    assert_eq!("August", Month::August.name());
    assert_eq!("September", Month::September.name());
    assert_eq!("October", Month::October.name());
    assert_eq!("November", Month::November.name());
    assert_eq!("December", Month::December.name());
}
