use cards::card::Card;
use cards::card::Suit;
use cards::decimal::dec_string;
use cards::decimal::int_to_string;

#[test]
fn color_of_each_suit() {
    assert_eq!(Suit::Hearts.color(), "Red");
    assert_eq!(Suit::Diamonds.color(), "Red");
    assert_eq!(Suit::Clubs.color(), "Black");
    assert_eq!(Suit::Spades.color(), "Black");
}

#[test]
fn name_of_each_suit() {
    assert_eq!(Suit::Hearts.name(), "Hearts");
    assert_eq!(Suit::Diamonds.name(), "Diamonds");
    assert_eq!(Suit::Clubs.name(), "Clubs");
    assert_eq!(Suit::Spades.name(), "Spades");
}

#[test]
fn debug_form_matches_name() {
    assert_eq!(format!("{:?}", Suit::Hearts), Suit::Hearts.name());
    assert_eq!(format!("{:?}", Suit::Diamonds), Suit::Diamonds.name());
    assert_eq!(format!("{:?}", Suit::Clubs), Suit::Clubs.name());
    assert_eq!(format!("{:?}", Suit::Spades), Suit::Spades.name());
}

#[test]
fn pair_with_equal_ranks() {
    assert!(Card::Clubs(7).pair_with(Card::Diamonds(7)));
    assert!(Card::Spades(1).pair_with(Card::Spades(1)));
    assert!(Card::Hearts(13).pair_with(Card::Clubs(13)));
}

#[test]
fn pair_with_unequal_ranks() {
    assert!(!Card::Clubs(7).pair_with(Card::Diamonds(8)));
    assert!(!Card::Hearts(1).pair_with(Card::Hearts(13)));
}

#[test]
fn pair_with_boundary_ranks() {
    assert!(Card::Hearts(-1).pair_with(Card::Spades(-1)));
    assert!(!Card::Hearts(0).pair_with(Card::Hearts(1)));
    assert!(Card::Diamonds(i8::MIN).pair_with(Card::Clubs(i8::MIN)));
    assert!(!Card::Diamonds(i8::MIN).pair_with(Card::Clubs(i8::MAX)));
}

#[test]
fn pair_with_is_symmetric() {
    let pairs = [
        (Card::Hearts(3), Card::Spades(3)),
        (Card::Clubs(-5), Card::Clubs(5)),
        (Card::Diamonds(0), Card::Hearts(0)),
    ];
    for (a, b) in pairs {
        assert_eq!(a.pair_with(b), b.pair_with(a));
    }
}

#[test]
fn rank_projects_payload() {
    assert_eq!(Card::Hearts(11).rank(), 11);
    assert_eq!(Card::Spades(-128).rank(), -128);
}

#[test]
fn display_of_cards() {
    assert_eq!(Card::Spades(4).display(), "4 of Spades");
    assert_eq!(Card::Hearts(13).display(), "13 of Hearts");
    assert_eq!(Card::Diamonds(1).display(), "1 of Diamonds");
    assert_eq!(Card::Clubs(10).display(), "10 of Clubs");
}

#[test]
fn display_of_boundary_ranks() {
    assert_eq!(Card::Hearts(-1).display(), "-1 of Hearts");
    assert_eq!(Card::Clubs(0).display(), "0 of Clubs");
    assert_eq!(Card::Spades(127).display(), "127 of Spades");
    assert_eq!(Card::Diamonds(-128).display(), "-128 of Diamonds");
}

#[test]
fn decimal_rendering() {
    assert_eq!(dec_string(0), "0");
    assert_eq!(dec_string(9), "9");
    assert_eq!(dec_string(10), "10");
    assert_eq!(dec_string(200), "200");
    assert_eq!(dec_string(255), "255");
    assert_eq!(int_to_string(0), "0");
    assert_eq!(int_to_string(-7), "-7");
    assert_eq!(int_to_string(42), "42");
    assert_eq!(int_to_string(-100), "-100");
}

#[test]
fn demo_lines_in_order() {
    let lines = [
        Suit::Clubs.name(),
        format!("{:?}", Suit::Hearts),
        Suit::Diamonds.color(),
        Card::Spades(4).display(),
    ];
    assert_eq!(lines, ["Clubs", "Hearts", "Red", "4 of Spades"]);
}
