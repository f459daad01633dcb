use doomsday::Day;

// Day of the week from an anchor value.

#[test]
fn day_test_day_from_anchor() {
    assert_eq!(Day::Sunday, Day::from_anchor(0));
    assert_eq!(Day::Monday, Day::from_anchor(1));
    assert_eq!(Day::Friday, Day::from_anchor(5));
    assert_eq!(Day::Saturday, Day::from_anchor(6));
}

#[test]
fn test_day_residue_round_trip() {
    let days = [
        Day::Monday,
        Day::Tuesday,
        Day::Wednesday,
        Day::Thursday,
        Day::Friday,
        Day::Saturday,
        Day::Sunday,
    ];
    for day in days {
        assert_eq!(day, Day::from_anchor(day.to_anchor()));
    }
}

#[test]
fn test_day_to_anchor() {
    assert_eq!(1, Day::Monday.to_anchor());
    assert_eq!(2, Day::Tuesday.to_anchor());
    assert_eq!(3, Day::Wednesday.to_anchor());
    assert_eq!(4, Day::Thursday.to_anchor());
    assert_eq!(5, Day::Friday.to_anchor());
    assert_eq!(6, Day::Saturday.to_anchor());
    assert_eq!(0, Day::Sunday.to_anchor());
}

#[test]
fn test_day_position() {
    assert_eq!(0, Day::Monday.position());
    assert_eq!(3, Day::Thursday.position());
    assert_eq!(6, Day::Sunday.position());
}

#[test]
fn test_day_from_anchor_wraps() {
    assert_eq!(Day::Sunday, Day::from_anchor(7));
    assert_eq!(Day::Monday, Day::from_anchor(8));
    assert_eq!(Day::Saturday, Day::from_anchor(27));
}

#[test]
fn test_day_default() {
    assert_eq!(Day::Sunday, Day::default());
}

#[test]
fn test_day_names() {
    assert_eq!("Monday", Day::Monday.name());
    assert_eq!("Tuesday", Day::Tuesday.name());
    assert_eq!("Wednesday", Day::Wednesday.name());
    assert_eq!("Thursday", Day::Thursday.name());
    assert_eq!("Friday", Day::Friday.name());
    assert_eq!("Saturday", Day::Saturday.name());
    assert_eq!("Sunday", Day::Sunday.name());
}
