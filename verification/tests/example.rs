use andex::Andex;
use andex::AndexableArray;

// A player with score
#[derive(Default, Clone, Copy)]
pub struct Player {
    pub score: i32,
}

// The player identifier
#[derive(Debug)]
pub enum PlayerIdMarker {}
type PlayerId = Andex<PlayerIdMarker, 4>;

// All players in the game
type Players = AndexableArray<PlayerId, Player, 4>;

// A piece on the board
#[derive(Clone, Copy)]
pub struct Piece {
    pub owner: PlayerId,
    pub position: i32,
}

impl Default for Piece {
    fn default() -> Self {
        Piece { owner: PlayerId::first(), position: 0 }
    }
}

// The piece identifier
#[derive(Debug)]
pub enum PieceIdMarker {}
type PieceId = Andex<PieceIdMarker, 32>;

// All pieces in the game
type Pieces = AndexableArray<PieceId, Piece, 32>;

#[derive(Default)]
pub struct Game {
    pub players: Players,
    pub pieces: Pieces,
}

impl Game {
    pub fn play(&mut self) {
        // Increment all scores
        for playerid in PlayerId::iter() {
            self.players[playerid].score += 1;
        }
        // Move first piece forward:
        self.pieces[PieceId::try_from(0).unwrap()].position += 1;
        // To create an index at run time, we have to use
        // TryInto/TryFrom, which returns Result:
        if let Ok(playerid) = PlayerId::try_from(1) {
            self.players[playerid].score = 9;
        }
    }
}

#[test]
fn example_test() {
    let mut game = Game::default();
    game.play();
    for playerid in PlayerId::iter() {
        println!(
            "playerid display {}, debug {:?}; score {}",
            usize::from(playerid),
            playerid,
            game.players[playerid].score
        );
    }
    let scores: Vec<i32> = game.players.iter().map(|p| p.score).collect();
    assert_eq!(scores, vec![1, 9, 1, 1]);
    assert_eq!(game.pieces[PieceId::first()].position, 1);
    assert_eq!(usize::from(game.pieces[PieceId::last()].owner), 0);
}
