//! Lets a human play 7 Wonders: the texts that show the game to the human, and what the answers of
//! the human lead to. Reading the answers and printing the texts is left to the caller.

use vstd::prelude::*;
use vstd::string::StringExecFns;

use crate::action::Action;
use crate::action::ActionOptions;
use crate::action::ActionView;
use crate::action::Borrow;
use crate::action::Borrowing;
use crate::action::BorrowingView;
use crate::card::Card;
use crate::game::VisibleGame;
use crate::player::Player;
use crate::player::PublicPlayer;
use crate::power::ability_text;
use crate::resources::cost_text;
use crate::table::Table;
use crate::table::table_text;
use crate::table::underlines;
use crate::utils::decimal;
use crate::utils::join_texts;
use crate::utils::joined;
use crate::utils::lowercase_text;
use crate::utils::lowered;
use crate::utils::number_of_text;
use crate::utils::number_text;
use crate::utils::parsed_number;
use crate::utils::text_views;
use crate::utils::trimmed;
use crate::utils::trimmed_text;
use crate::wonder::WonderSide;

verus! {

/// The texts and the steps for a human who plays: see the functions of this type.
#[derive(Debug)]
pub struct Human;

/// The names of the cards that the borrows are on.
pub open spec fn card_names(borrows: Seq<Borrow>) -> Seq<Seq<char>> {
    borrows.map_values(|borrow: Borrow| borrow.card.spec_name())
}

/// The text for what is borrowed from one neighbour, who sits at the given place: the names of
/// the cards and the number of the player, which is one more than the place.
pub open spec fn lender_text(borrows: Seq<Borrow>, neighbour_index: usize) -> Seq<char> {
    joined(card_names(borrows), ", "@) + " from player "@ + decimal(neighbour_index + 1)
}

/// The texts for what is borrowed from the left neighbour, if anything, and from the right
/// neighbour, if anything.
pub open spec fn lender_texts(
    borrowing: BorrowingView,
    left_neighbour_index: usize,
    right_neighbour_index: usize,
) -> Seq<Seq<char>> {
    (if borrowing.left.len() > 0 {
        seq![lender_text(borrowing.left, left_neighbour_index)]
    } else {
        Seq::empty()
    }) + (if borrowing.right.len() > 0 {
        seq![lender_text(borrowing.right, right_neighbour_index)]
    } else {
        Seq::empty()
    })
}

/// The line for the option at the given place: its number, which is one more than the place, and
/// what it borrows from whom. An option that does not build a card has no line.
pub open spec fn option_line(
    option: ActionView,
    place: int,
    left_neighbour_index: usize,
    right_neighbour_index: usize,
) -> Seq<char> {
    match option {
        ActionView::Build(_, borrowing) => "   "@ + decimal(place + 1) + ") Borrow "@ + joined(
            lender_texts(borrowing, left_neighbour_index, right_neighbour_index),
            " and "@,
        ) + "\n"@,
        _ => Seq::empty(),
    }
}

/// The lines for the first `upto` options.
pub open spec fn option_lines(
    options: Seq<ActionView>,
    left_neighbour_index: usize,
    right_neighbour_index: usize,
    upto: int,
) -> Seq<char>
    decreases upto,
{
    if upto <= 0 {
        Seq::empty()
    } else {
        option_lines(options, left_neighbour_index, right_neighbour_index, upto - 1) + option_line(
            options[upto - 1],
            upto - 1,
            left_neighbour_index,
            right_neighbour_index,
        )
    }
}

impl Human {
    /// Writes what is borrowed from one neighbour: see [`lender_text`].
    fn lender(borrows: &Vec<Borrow>, neighbour_index: usize) -> (text: String)
        requires
            neighbour_index < usize::MAX,
        ensures
            text@ == lender_text(borrows@, neighbour_index),
    {
        let mut names: Vec<String> = Vec::new();
        let mut i: usize = 0;
        assert(text_views(names@) =~= card_names(borrows@.take(0)));
        while i < borrows.len()
            invariant
                i <= borrows.len(),
                text_views(names@) == card_names(borrows@.take(i as int)),
            decreases borrows.len() - i,
        {
            let ghost before = names@;
            let name = borrows[i].card.to_string();
            let ghost added = name@;
            names.push(name);
            assert(text_views(names@) =~= text_views(before).push(added));
            assert(card_names(borrows@.take(i + 1)) =~= card_names(borrows@.take(i as int)).push(added));
            i = i + 1;
        }
        assert(borrows@.take(borrows.len() as int) =~= borrows@);
        let mut text = join_texts(&names, ", ");
        text.append(" from player ");
        let number = number_text((neighbour_index + 1) as i128);
        text.append(number.as_str());
        text
    }

    /// Returns the text that shows the human the options for borrowing: one line for each
    /// option, with its number and what it borrows from which player. See [`option_lines`].
    pub fn print_borrowing_options(
        options: &ActionOptions,
        left_neighbour_index: usize,
        right_neighbour_index: usize,
    ) -> (out: String)
        requires
            left_neighbour_index < usize::MAX,
            right_neighbour_index < usize::MAX,
        ensures
            out@ == option_lines(
                options@,
                left_neighbour_index,
                right_neighbour_index,
                options@.len() as int,
            ),
    {
        let mut out = String::new();
        let mut index: usize = 0;
        while index < options.actions.len()
            invariant
                index <= options.actions@.len(),
                left_neighbour_index < usize::MAX,
                right_neighbour_index < usize::MAX,
                out@ == option_lines(options@, left_neighbour_index, right_neighbour_index, index as int),
            decreases options.actions@.len() - index,
        {
            assert(options@[index as int] == options.actions@[index as int]@);
            let ghost before = out@;
            if let Action::Build(_, borrowing) = &options.actions[index] {
                let mut borrows: Vec<String> = Vec::new();
                assert(text_views(borrows@) =~= Seq::empty());
                if !borrowing.left.is_empty() {
                    let text = Human::lender(&borrowing.left, left_neighbour_index);
                    borrows.push(text);
                }
                if !borrowing.right.is_empty() {
                    let text = Human::lender(&borrowing.right, right_neighbour_index);
                    borrows.push(text);
                }
                assert(text_views(borrows@) =~= lender_texts(
                    borrowing@,
                    left_neighbour_index,
                    right_neighbour_index,
                ));
                out.append("   ");
                let number = number_text((index + 1) as i128);
                out.append(number.as_str());
                out.append(") Borrow ");
                let list = join_texts(&borrows, " and ");
                out.append(list.as_str());
                out.append("\n");
                assert(out@ =~= before + option_line(
                    options@[index as int],
                    index as int,
                    left_neighbour_index,
                    right_neighbour_index,
                ));
            } else {
                assert(out@ =~= before + option_line(
                    options@[index as int],
                    index as int,
                    left_neighbour_index,
                    right_neighbour_index,
                ));
            }
            index = index + 1;
        }
        out
    }
}

/// What the human is asked next.
#[derive(Debug)]
pub enum Question {
    /// Which card of the hand to play.
    Card,
    /// Whether to build the card or to discard it.
    BuildOrDiscard(Card),
    /// Which of the options to borrow with, to build the card.
    Borrowing(Card, ActionOptions),
}

/// The mathematical content of a [`Question`].
#[verifier::ext_equal]
pub enum QuestionView {
    Card,
    BuildOrDiscard(Card),
    Borrowing(Card, Seq<ActionView>),
}

impl View for Question {
    type V = QuestionView;

    open spec fn view(&self) -> QuestionView {
        match self {
            Question::Card => QuestionView::Card,
            Question::BuildOrDiscard(card) => QuestionView::BuildOrDiscard(*card),
            Question::Borrowing(card, options) => QuestionView::Borrowing(*card, options@),
        }
    }
}

/// What an answer of the human leads to.
#[derive(Debug)]
pub enum Step {
    /// The human is asked again: the question, and the text that is printed before the answer is
    /// read.
    Ask(Question, String),
    /// The human has settled on an action.
    Play(Action),
}

/// The mathematical content of a [`Step`].
#[verifier::ext_equal]
pub enum StepView {
    Ask(QuestionView, Seq<char>),
    Play(ActionView),
}

impl View for Step {
    type V = StepView;

    open spec fn view(&self) -> StepView {
        match self {
            Step::Ask(question, text) => StepView::Ask(question@, text@),
            Step::Play(action) => StepView::Play(action@),
        }
    }
}

/// The place that an answer picks among `count` things: the answer, without the white space round
/// it, is the number of the thing, counted from 1.
pub open spec fn chosen_place(answer: Seq<char>, count: usize) -> Option<usize> {
    match number_of_text(trimmed_text(answer)) {
        Some(id) => if 0 < id <= count {
            Some((id - 1) as usize)
        } else {
            None
        },
        None => None,
    }
}

/// The text that asks for a number between 1 and `count`.
pub open spec fn number_prompt(count: usize) -> Seq<char> {
    "Please enter a number between 1 and "@ + decimal(count as int) + " inclusive: "@
}

/// The text that asks anew, after an action that cannot be played.
pub open spec fn retry_prompt() -> Seq<char> {
    "You can't play that card. Please try again\n\nPlease enter the id of the card to play: "@
}

/// The step for an action that the human has asked for: to play it if it is legal, and to ask
/// for a card again if it is not.
pub open spec fn settle(player: Player, action: ActionView, left: Seq<Card>, right: Seq<Card>) -> StepView {
    if player.can_play_spec(action, left, right) {
        StepView::Play(action)
    } else {
        StepView::Ask(QuestionView::Card, retry_prompt())
    }
}

/// What an answer of the human to a question leads to, for a player whose neighbours have built
/// the structures `left` and `right` and sit at the given places.
pub open spec fn answered(
    question: QuestionView,
    answer: Seq<char>,
    player: Player,
    left: Seq<Card>,
    right: Seq<Card>,
    left_neighbour_index: usize,
    right_neighbour_index: usize,
) -> StepView {
    match question {
        QuestionView::Card => match chosen_place(answer, player.hand@.len() as usize) {
            Some(place) => StepView::Ask(
                QuestionView::BuildOrDiscard(player.hand@[place as int]),
                "And now choose (b) to build or (d) to discard: "@,
            ),
            None => StepView::Ask(QuestionView::Card, number_prompt(player.hand@.len() as usize)),
        },
        QuestionView::BuildOrDiscard(card) => {
            let letter = lowercase_text(trimmed_text(answer));
            let options = player.options(card, left, right);
            if letter == "b"@ {
                if options.len() == 0 || (options.len() == 1 && options[0] is Build && options[0]->Build_1.count()
                    == 0) {
                    // Built with the player's own cards, or not possible, which shows further on.
                    settle(player, ActionView::Build(card, BorrowingView::none()), left, right)
                } else if options.len() == 1 {
                    // Borrowing, but only one option, so just do it.
                    settle(player, options[0], left, right)
                } else {
                    StepView::Ask(
                        QuestionView::Borrowing(card, options),
                        "\nOptions for borrowing required resources:\n"@ + option_lines(
                            options,
                            left_neighbour_index,
                            right_neighbour_index,
                            options.len() as int,
                        ) + "Please enter the id of the borrow you want to make: "@,
                    )
                }
            } else if letter == "d"@ {
                settle(player, ActionView::Discard(card), left, right)
            } else {
                StepView::Ask(QuestionView::BuildOrDiscard(card), "Please enter either b or d: "@)
            }
        },
        QuestionView::Borrowing(card, options) => match chosen_place(answer, options.len() as usize) {
            Some(place) => settle(player, options[place as int], left, right),
            None => StepView::Ask(QuestionView::Borrowing(card, options), number_prompt(options.len() as usize)),
        },
    }
}

impl Human {
    /// The text that is printed before the first answer is read.
    pub fn first_prompt() -> (text: String)
        ensures
            text@ == "Please enter the id of the card to play: "@,
    {
        "Please enter the id of the card to play: ".to_string()
    }

    /// Reads the answer to the question which of `count` things is meant: their places are
    /// numbered from 1. Returns the place, counted from 0, or nothing if the answer is no such
    /// number.
    pub fn choose_from_slice(answer: &str, count: usize) -> (place: Option<usize>)
        ensures
            place == chosen_place(answer@, count),
    {
        match parsed_number(trimmed(answer)) {
            Some(id) => if id > 0 && id <= count {
                Some(id - 1)
            } else {
                None
            },
            None => None,
        }
    }

    /// Writes the text that asks for a number between 1 and `count`.
    fn ask_for_number(count: usize) -> (text: String)
        ensures
            text@ == number_prompt(count),
    {
        let mut text = "Please enter a number between 1 and ".to_string();
        let number = number_text(count as i128);
        text.append(number.as_str());
        text.append(" inclusive: ");
        text
    }

    /// Plays the action if it is legal, and asks for a card again if it is not.
    fn settle(player: &Player, action: Action, visible_game: &VisibleGame) -> (step: Step)
        requires
            player.wf(),
            visible_game.wf(),
        ensures
            step@ == settle(
                *player,
                action@,
                visible_game.spec_left_neighbour().built_structures@,
                visible_game.spec_right_neighbour().built_structures@,
            ),
    {
        if player.can_play(&action, visible_game) {
            Step::Play(action)
        } else {
            Step::Ask(
                Question::Card,
                "You can't play that card. Please try again\n\nPlease enter the id of the card to play: ".to_string(),
            )
        }
    }

    /// Takes the answer of the human to a question and returns what it leads to: the next
    /// question with the text that is printed for it, or the action that the human has settled on.
    /// See [`answered`].
    pub fn ask_for_action(question: Question, answer: &str, player: &Player, visible_game: &VisibleGame) -> (step:
        Step)
        requires
            player.wf(),
            visible_game.wf(),
            visible_game.public_players@.len() < usize::MAX,
        ensures
            step@ == answered(
                question@,
                answer@,
                *player,
                visible_game.spec_left_neighbour().built_structures@,
                visible_game.spec_right_neighbour().built_structures@,
                visible_game.spec_left_neighbour_index() as usize,
                visible_game.spec_right_neighbour_index() as usize,
            ),
    {
        match question {
            Question::Card => match Human::choose_from_slice(answer, player.hand.len()) {
                Some(place) => Step::Ask(
                    Question::BuildOrDiscard(player.hand[place]),
                    "And now choose (b) to build or (d) to discard: ".to_string(),
                ),
                None => Step::Ask(Question::Card, Human::ask_for_number(player.hand.len())),
            },
            Question::BuildOrDiscard(card) => {
                let letter = lowered(trimmed(answer));
                if letter == "b".to_string() {
                    let mut options = player.options_for_card(&card, visible_game, false);
                    if options.own_cards_only() || !options.possible() {
                        Human::settle(player, Action::Build(card, Borrowing::no_borrowing()), visible_game)
                    } else if options.actions.len() == 1 {
                        let ghost offered = options@;
                        let action = options.actions.swap_remove(0);
                        assert(action@ == offered[0]);
                        Human::settle(player, action, visible_game)
                    } else {
                        let mut text = "\nOptions for borrowing required resources:\n".to_string();
                        let lines = Human::print_borrowing_options(
                            &options,
                            visible_game.left_neighbour_index(),
                            visible_game.right_neighbour_index(),
                        );
                        text.append(lines.as_str());
                        text.append("Please enter the id of the borrow you want to make: ");
                        Step::Ask(Question::Borrowing(card, options), text)
                    }
                } else if letter == "d".to_string() {
                    Human::settle(player, Action::Discard(card), visible_game)
                } else {
                    Step::Ask(Question::BuildOrDiscard(card), "Please enter either b or d: ".to_string())
                }
            },
            Question::Borrowing(card, options) => {
                let mut options = options;
                match Human::choose_from_slice(answer, options.actions.len()) {
                    Some(place) => {
                        let ghost offered = options@;
                        let action = options.actions[place].duplicate();
                        assert(action@ == offered[place as int]);
                        Human::settle(player, action, visible_game)
                    },
                    None => {
                        let text = Human::ask_for_number(options.actions.len());
                        Step::Ask(Question::Borrowing(card, options), text)
                    },
                }
            },
        }
    }
}

/// The letter of a side of a wonder.
pub open spec fn side_text(side: WonderSide) -> Seq<char> {
    match side {
        WonderSide::A => "A"@,
        WonderSide::B => "B"@,
    }
}

/// The header of a table and the line under it.
pub open spec fn table_head(header: Seq<Seq<char>>) -> Seq<Seq<Seq<char>>> {
    seq![header, underlines(header)]
}

/// The rows of the table of the structures that a player has built: for each card its name and
/// what it does.
pub open spec fn played_rows(built: Seq<Card>) -> Seq<Seq<Seq<char>>> {
    table_head(seq!["Card"@, "Power"@]) + built.map_values(
        |card: Card| seq![card.spec_name(), ability_text(card.spec_power())],
    )
}

/// What is shown of the player at the given place: the number of the player, the wonder, the
/// coins, and the structures that the player has built, if any.
pub open spec fn seat_text(public_player: PublicPlayer, index: int, is_you: bool) -> Seq<char> {
    "Player "@ + decimal(index + 1) + (if is_you {
        " (you)"@
    } else {
        ""@
    }) + "\n"@ + "  Wonder: "@ + public_player.wonder.wonder_type.spec_name() + " (side "@ + side_text(
        public_player.wonder.wonder_side,
    ) + "). Starting resource: "@ + public_player.wonder.starting_resource().spec_name() + "\n"@ + "  Coins: "@
        + decimal(public_player.coins as int) + "\n"@ + (if public_player.built_structures@.len() > 0 {
        table_text(played_rows(public_player.built_structures@), "  "@, 4)
    } else {
        Seq::empty()
    }) + "\n"@
}

/// The place of the player that is shown at the given position: the players are shown in the
/// order of their seats, shifted so that the player that the view is made for comes in the middle.
pub open spec fn seat_shown(position: int, count: int, player_index: int) -> int {
    (position + count / 2 + 1 + player_index) % count
}

/// What is shown of the players at the first `upto` positions.
pub open spec fn seats_text(public_players: Seq<PublicPlayer>, player_index: int, upto: int) -> Seq<char>
    decreases upto,
{
    if upto <= 0 {
        Seq::empty()
    } else {
        let index = seat_shown(upto - 1, public_players.len() as int, player_index);
        seats_text(public_players, player_index, upto - 1) + seat_text(
            public_players[index],
            index,
            index == player_index,
        )
    }
}

/// The mark in front of a card of the hand: nothing if the card cannot be built, a star if it can
/// be built with the player's own cards, and a hash if something has to be borrowed for it.
pub open spec fn playability(options: Seq<ActionView>) -> Seq<char> {
    if options.len() == 0 {
        "  "@
    } else if options.len() == 1 && options[0] is Build && options[0]->Build_1.count() == 0 {
        "* "@
    } else {
        "# "@
    }
}

/// The row of the table of the hand for the card at the given place.
pub open spec fn hand_row(player: Player, place: int, left: Seq<Card>, right: Seq<Card>) -> Seq<Seq<char>> {
    let card = player.hand@[place];
    seq![
        playability(player.options(card, left, right)) + decimal(place + 1),
        card.spec_name(),
        cost_text(card.cost()@),
        ability_text(card.spec_power()),
    ]
}

/// The rows of the table of the hand, for the first `upto` cards.
pub open spec fn hand_rows(player: Player, left: Seq<Card>, right: Seq<Card>, upto: int) -> Seq<Seq<Seq<char>>>
    decreases upto,
{
    if upto <= 0 {
        table_head(seq!["Num"@, "Card"@, "Cost"@, "Power"@])
    } else {
        hand_rows(player, left, right, upto - 1).push(hand_row(player, upto - 1, left, right))
    }
}

/// What is shown of the game to the human: every player, and then the hand.
pub open spec fn state_text(
    player: Player,
    public_players: Seq<PublicPlayer>,
    player_index: int,
    left: Seq<Card>,
    right: Seq<Card>,
) -> Seq<char> {
    seats_text(public_players, player_index, public_players.len() as int) + "Your hand:\n"@ + table_text(
        hand_rows(player, left, right, player.hand@.len() as int),
        "  "@,
        4,
    )
}

impl Human {
    /// Returns the table of the structures that a player has built: see [`played_rows`].
    fn played_table(built: &Vec<Card>) -> (table: Table)
        ensures
            table.wf(),
            table@ == played_rows(built@),
    {
        let mut header: Vec<String> = Vec::new();
        header.push("Card".to_string());
        header.push("Power".to_string());
        assert(text_views(header@) =~= seq!["Card"@, "Power"@]);
        let mut played = Table::new(header);
        let ghost head = played@;
        let mut i: usize = 0;
        while i < built.len()
            invariant
                i <= built@.len(),
                played.wf(),
                played.num_columns == 2,
                head == table_head(seq!["Card"@, "Power"@]),
                played@ == head + built@.take(i as int).map_values(
                    |card: Card| seq![card.spec_name(), ability_text(card.spec_power())],
                ),
            decreases built@.len() - i,
        {
            let card = built[i];
            let mut row: Vec<String> = Vec::new();
            row.push(card.to_string());
            row.push(card.power().to_string());
            assert(text_views(row@) =~= seq![card.spec_name(), ability_text(card.spec_power())]);
            let ghost before = played@;
            played.add(row);
            assert(played@ =~= head + built@.take(i + 1).map_values(
                |card: Card| seq![card.spec_name(), ability_text(card.spec_power())],
            ));
            i = i + 1;
        }
        assert(built@.take(built@.len() as int) =~= built@);
        played
    }

    /// Writes what is shown of one player: see [`seat_text`].
    fn seat(public_player: &PublicPlayer, index: usize, is_you: bool) -> (text: String)
        requires
            index < usize::MAX,
        ensures
            text@ == seat_text(*public_player, index as int, is_you),
    {
        let mut text = "Player ".to_string();
        let number = number_text((index + 1) as i128);
        text.append(number.as_str());
        if is_you {
            text.append(" (you)");
        } else {
            text.append("");
        }
        text.append("\n");
        text.append("  Wonder: ");
        text.append(public_player.wonder.wonder_type.name());
        text.append(" (side ");
        match public_player.wonder.wonder_side {
            WonderSide::A => text.append("A"),
            WonderSide::B => text.append("B"),
        }
        text.append("). Starting resource: ");
        text.append(public_player.wonder.starting_resource().name());
        text.append("\n");
        text.append("  Coins: ");
        let coins = number_text(public_player.coins as i128);
        text.append(coins.as_str());
        text.append("\n");
        if !public_player.built_structures.is_empty() {
            let played = Human::played_table(&public_player.built_structures);
            let table = played.print("  ", 4);
            text.append(table.as_str());
        }
        text.append("\n");
        assert(text@ =~= seat_text(*public_player, index as int, is_you));
        text
    }

    /// Returns the table of the player's hand: for each card its number, with a mark that says
    /// whether it can be built, its name, its cost, and what it does. See [`hand_rows`].
    fn hand_table(player: &Player, visible_game: &VisibleGame) -> (table: Table)
        requires
            player.wf(),
            visible_game.wf(),
        ensures
            table.wf(),
            table@ == hand_rows(
                *player,
                visible_game.spec_left_neighbour().built_structures@,
                visible_game.spec_right_neighbour().built_structures@,
                player.hand@.len() as int,
            ),
    {
        let ghost left = visible_game.spec_left_neighbour().built_structures@;
        let ghost right = visible_game.spec_right_neighbour().built_structures@;
        let mut header: Vec<String> = Vec::new();
        header.push("Num".to_string());
        header.push("Card".to_string());
        header.push("Cost".to_string());
        header.push("Power".to_string());
        assert(text_views(header@) =~= seq!["Num"@, "Card"@, "Cost"@, "Power"@]);
        let mut hand = Table::new(header);
        let mut i: usize = 0;
        while i < player.hand.len()
            invariant
                i <= player.hand@.len(),
                player.wf(),
                visible_game.wf(),
                left == visible_game.spec_left_neighbour().built_structures@,
                right == visible_game.spec_right_neighbour().built_structures@,
                hand.wf(),
                hand.num_columns == 4,
                hand@ == hand_rows(*player, left, right, i as int),
            decreases player.hand@.len() - i,
        {
            let card = player.hand[i];
            let options = player.options_for_card(&card, visible_game, false);
            let mut number = if !options.possible() {
                "  ".to_string()
            } else if options.own_cards_only() {
                "* ".to_string()
            } else {
                "# ".to_string()
            };
            let place = number_text((i + 1) as i128);
            number.append(place.as_str());
            let mut row: Vec<String> = Vec::new();
            row.push(number);
            row.push(card.to_string());
            row.push(card.cost().to_string());
            row.push(card.power().to_string());
            assert(text_views(row@) =~= hand_row(*player, i as int, left, right));
            hand.add(row);
            i = i + 1;
        }
        hand
    }

    /// Returns the text that shows the game to the human: every player with the wonder, the coins
    /// and the built structures, and then the hand of the human with what each card costs, what it
    /// does, and whether it can be built. See [`state_text`].
    pub fn print_state_for_user(player: &Player, visible_game: &VisibleGame) -> (text: String)
        requires
            player.wf(),
            visible_game.wf(),
            3 * visible_game.public_players@.len() <= usize::MAX,
        ensures
            text@ == state_text(
                *player,
                visible_game.public_players@,
                visible_game.player_index as int,
                visible_game.spec_left_neighbour().built_structures@,
                visible_game.spec_right_neighbour().built_structures@,
            ),
    {
        let all_players = visible_game.public_players;
        let player_index: usize = visible_game.player_index;
        let count: usize = all_players.len();
        // Shift the players so that the one the view is made for ends up in the middle.
        let offset: usize = (count / 2 + 1) + player_index;
        let mut text = String::new();
        let mut i: usize = 0;
        while i < count
            invariant
                i <= count,
                count == all_players@.len(),
                all_players@ == visible_game.public_players@,
                player_index == visible_game.player_index,
                3 * count <= usize::MAX,
                player_index < count,
                offset == count / 2 + 1 + player_index,
                text@ == seats_text(all_players@, player_index as int, i as int),
            decreases count - i,
        {
            let index: usize = (i + offset) % count;
            assert(index == seat_shown(i as int, count as int, player_index as int));
            let seat = Human::seat(&all_players[index], index, index == player_index);
            text.append(seat.as_str());
            i = i + 1;
        }
        let hand = Human::hand_table(player, visible_game);
        text.append("Your hand:\n");
        let table = hand.print("  ", 4);
        text.append(table.as_str());
        text
    }
}

} // verus!
