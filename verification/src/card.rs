//! Suits and cards, their colors, names, and the pairing predicate.

use crate::decimal::int_dec_chars;
use crate::decimal::int_to_string;
use vstd::prelude::*;

verus! {

/// The four suits of a standard deck of playing cards.
#[derive(Debug, Clone, Copy, PartialEq, Eq, Structural)]
pub enum Suit {
    Hearts,
    Diamonds,
    Clubs,
    Spades,
}

impl Suit {
    /// The color of this suit: red for Hearts and Diamonds, black for
    /// Clubs and Spades.
    pub open spec fn color_spec(self) -> Seq<char> {
        match self {
            Suit::Hearts => "Red"@,
            Suit::Diamonds => "Red"@,
            Suit::Clubs => "Black"@,
            Suit::Spades => "Black"@,
        }
    }

    /// The plain name of this suit, capitalized, with no decoration.
    pub open spec fn name_spec(self) -> Seq<char> {
        match self {
            Suit::Hearts => "Hearts"@,
            Suit::Diamonds => "Diamonds"@,
            Suit::Clubs => "Clubs"@,
            Suit::Spades => "Spades"@,
        }
    }

    /// Returns "Red" for Hearts and Diamonds, "Black" for Clubs and Spades.
    pub fn color(&self) -> (r: String)
        ensures
            r@ == self.color_spec(),
    {
        match self {
            Suit::Hearts => String::from_str("Red"),
            Suit::Diamonds => String::from_str("Red"),
            Suit::Clubs => String::from_str("Black"),
            Suit::Spades => String::from_str("Black"),
        }
    }

    /// Returns the suit's bare name: "Hearts", "Diamonds", "Clubs" or
    /// "Spades".
    pub fn name(&self) -> (r: String)
        ensures
            r@ == self.name_spec(),
    {
        match self {
            Suit::Hearts => String::from_str("Hearts"),
            Suit::Diamonds => String::from_str("Diamonds"),
            Suit::Clubs => String::from_str("Clubs"),
            Suit::Spades => String::from_str("Spades"),
        }
    }
}

/// A playing card. The suit tag and the signed rank are fused into one
/// variant; the rank carries no range validation.
#[derive(Debug, Clone, Copy, PartialEq, Eq, Structural)]
pub enum Card {
    Hearts(i8),
    Diamonds(i8),
    Clubs(i8),
    Spades(i8),
}

/// The card carrying the given suit tag and rank.
pub open spec fn card_of(s: Suit, rank: i8) -> Card {
    match s {
        Suit::Hearts => Card::Hearts(rank),
        Suit::Diamonds => Card::Diamonds(rank),
        Suit::Clubs => Card::Clubs(rank),
        Suit::Spades => Card::Spades(rank),
    }
}

impl Card {
    /// The rank payload of this card, whatever its suit.
    pub open spec fn rank_spec(self) -> i8 {
        match self {
            Card::Hearts(x) => x,
            Card::Diamonds(x) => x,
            Card::Clubs(x) => x,
            Card::Spades(x) => x,
        }
    }

    /// The name of this card's suit tag.
    pub open spec fn suit_name_spec(self) -> Seq<char> {
        match self {
            Card::Hearts(_) => "Hearts"@,
            Card::Diamonds(_) => "Diamonds"@,
            Card::Clubs(_) => "Clubs"@,
            Card::Spades(_) => "Spades"@,
        }
    }

    /// Two cards pair up exactly when their ranks are equal; the suits
    /// play no part.
    pub open spec fn pairs_with(self, other: Card) -> bool {
        self.rank_spec() == other.rank_spec()
    }

    /// The rendering of this card: the rank in decimal, then " of ",
    /// then the suit's name.
    pub open spec fn display_spec(self) -> Seq<char> {
        int_dec_chars(self.rank_spec() as int) + " of "@ + self.suit_name_spec()
    }

    /// Projects any card variant to its integer rank.
    pub fn rank(&self) -> (r: i8)
        ensures
            r == self.rank_spec(),
    {
        match self {
            Card::Clubs(x) | Card::Hearts(x) | Card::Spades(x) | Card::Diamonds(x) => *x,
        }
    }

    /// Returns true if and only if the two cards' ranks are equal,
    /// regardless of suit.
    pub fn pair_with(self, other: Self) -> (r: bool)
        ensures
            r == self.pairs_with(other),
    {
        let the_val = match self {
            Card::Clubs(x) | Card::Hearts(x) | Card::Spades(x) | Card::Diamonds(x) => x,
        };
        let other_val = match other {
            Card::Clubs(x) | Card::Hearts(x) | Card::Spades(x) | Card::Diamonds(x) => x,
        };
        the_val == other_val
    }

    /// Returns the bare name of this card's suit.
    pub fn suit_name(&self) -> (r: String)
        ensures
            r@ == self.suit_name_spec(),
    {
        match self {
            Card::Hearts(_) => String::from_str("Hearts"),
            Card::Diamonds(_) => String::from_str("Diamonds"),
            Card::Clubs(_) => String::from_str("Clubs"),
            Card::Spades(_) => String::from_str("Spades"),
        }
    }

    /// Renders the card as "<rank> of <SuitName>", the rank in standard
    /// decimal form.
    pub fn display(&self) -> (r: String)
        ensures
            r@ == self.display_spec(),
    {
        let mut s = int_to_string(self.rank());
        s.append(" of ");
        let suit = self.suit_name();
        s.append(suit.as_str());
        s
    }
}

/// Pairing looks only at the ranks: for any two suit tags and any two
/// ranks, the cards they make pair up exactly when the ranks are equal.
pub proof fn lemma_pair_with_rank_only(s1: Suit, r1: i8, s2: Suit, r2: i8)
    ensures
        card_of(s1, r1).pairs_with(card_of(s2, r2)) <==> r1 == r2,
{
}

/// Pairing is symmetric: either card may stand on either side.
pub proof fn lemma_pair_with_symmetric(a: Card, b: Card)
    ensures
        a.pairs_with(b) == b.pairs_with(a),
{
}

} // verus!
