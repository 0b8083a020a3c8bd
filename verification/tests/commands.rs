//! The text command interface and the console renderings.

use animal_shogi::display::usize_to_string;
use animal_shogi::AnimalShogiMaster;
use animal_shogi::Board;
use animal_shogi::Message;
use animal_shogi::Player;
use animal_shogi::RuleError;
use animal_shogi::ToDescriptiveString;
use animal_shogi::TurnCounter;

#[test]
fn four_digit_commands_move() {
    let mut m = AnimalShogiMaster::default();
    let r = m.execute_command("2111");
    assert_eq!(
        r,
        Ok(Message::Moved {
            captured: true,
            promoted: false
        })
    );
    assert_eq!(m.counter.player, Player::Second);
    let r = m.execute_command("0111");
    assert_eq!(
        r,
        Ok(Message::Moved {
            captured: true,
            promoted: false
        })
    );
    assert_eq!(m.counter.player, Player::First);
}

#[test]
fn three_digit_commands_drop() {
    let mut m = AnimalShogiMaster::default();
    assert!(m.execute_command("2111").is_ok());
    assert!(m.execute_command("0010").is_ok());
    let r = m.execute_command("021");
    assert_eq!(r, Ok(Message::Dropped));
    assert_eq!(m.pools.get_pool_of(Player::First).len(), 0);
}

#[test]
fn malformed_commands_are_rejected_unchanged() {
    let mut m = AnimalShogiMaster::default();
    let before = m.board.to_layout_string();
    for bad in ["", "1", "12", "12345", "21a1", "2 11", "-211", "21!1"] {
        assert_eq!(m.execute_command(bad), Err(RuleError::MalformedCommand));
    }
    assert_eq!(m.board.to_layout_string(), before);
    assert_eq!(m.counter, TurnCounter::default());
}

#[test]
fn command_errors_come_from_the_rules() {
    let mut m = AnimalShogiMaster::default();
    assert_eq!(m.execute_command("4030"), Err(RuleError::OutOfBounds));
    assert_eq!(m.execute_command("2010"), Err(RuleError::NoPiece));
    assert_eq!(m.execute_command("0010"), Err(RuleError::NotYourPiece));
    assert_eq!(m.execute_command("3121"), Err(RuleError::IllegalMove));
    assert_eq!(m.execute_command("020"), Err(RuleError::InvalidPoolIndex));
    assert_eq!(m.execute_command("031"), Err(RuleError::CellOccupied));
}

#[test]
fn usize_to_string_renders_decimals() {
    assert_eq!(usize_to_string(0), "0");
    assert_eq!(usize_to_string(7), "7");
    assert_eq!(usize_to_string(10), "10");
    assert_eq!(usize_to_string(907), "907");
}

#[test]
fn turn_counter_describes_itself() {
    let t = TurnCounter::default();
    assert_eq!(t.to_descriptive_string(false), "First Player's Turn (count:1)");
    let t = TurnCounter {
        count: 12,
        player: Player::Second,
    };
    assert_eq!(t.to_descriptive_string(false), "Second Player's Turn (count:12)");
}

#[test]
fn pools_describe_their_entries() {
    let mut m = AnimalShogiMaster::default();
    assert_eq!(
        m.pools.to_descriptive_string(false),
        "First's Pool: \nSecond's Pool: "
    );
    assert!(m.execute_command("2111").is_ok());
    assert_eq!(
        m.pools.to_descriptive_string(false),
        "First's Pool: Chicken(0)\nSecond's Pool: "
    );
}

#[test]
fn board_describes_itself_as_a_grid() {
    let board = Board::default();
    let expected = "  0 1 2\n +-+-+-+\n0|g|l|e|\n +-+-+-+\n1| |c| |\n +-+-+-+\n2| |C| |\n +-+-+-+\n3|E|L|G|\n +-+-+-+";
    assert_eq!(board.to_string_for_display(false), expected);
    assert_eq!(board.to_descriptive_string(false), expected);
    // The colored rendering wraps each piece in ANSI escapes.
    let colored = board.to_descriptive_string(true);
    assert!(colored.contains("\x1b[30m\x1b[47mg\x1b[0m"));
    assert!(colored.contains("\x1b[97m\x1b[40mL\x1b[0m"));
}
