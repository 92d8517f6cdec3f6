//! The read-only registry of supported games, keyed by ROM title.
use vstd::prelude::*;

verus! {

/// A game whose behaviour the emulation layer knows.
#[derive(Debug, Clone, Copy, PartialEq, Eq, Structural)]
pub enum Game {
    Megaman6Fxx,
    Megaman6Gxx,
    Rockexe6Rxx,
    Rockexe6Gxx,
}

/// The ROM title that selects `g`.
pub open spec fn title_of(g: Game) -> Seq<u8> {
    match g {
        Game::Megaman6Fxx => seq![77u8, 69, 71, 65, 77, 65, 78, 54, 95, 70, 88, 88],
        Game::Megaman6Gxx => seq![77u8, 69, 71, 65, 77, 65, 78, 54, 95, 71, 88, 88],
        Game::Rockexe6Rxx => seq![82u8, 79, 67, 75, 69, 88, 69, 54, 95, 82, 88, 88],
        Game::Rockexe6Gxx => seq![82u8, 79, 67, 75, 69, 88, 69, 54, 95, 71, 88, 88],
    }
}

/// The ROM title that selects `g`, as bytes.
pub fn title(g: Game) -> (r: Vec<u8>)
    ensures
        r@ == title_of(g),
{
    let v = match g {
        Game::Megaman6Fxx => vec![77u8, 69, 71, 65, 77, 65, 78, 54, 95, 70, 88, 88],
        Game::Megaman6Gxx => vec![77u8, 69, 71, 65, 77, 65, 78, 54, 95, 71, 88, 88],
        Game::Rockexe6Rxx => vec![82u8, 79, 67, 75, 69, 88, 69, 54, 95, 82, 88, 88],
        Game::Rockexe6Gxx => vec![82u8, 79, 67, 75, 69, 88, 69, 54, 95, 71, 88, 88],
    };
    assert(v@ =~= title_of(g));
    v
}

fn bytes_eq(a: &[u8], b: &[u8]) -> (r: bool)
    ensures
        r == (a@ == b@),
{
    if a.len() != b.len() {
        return false;
    }
    let mut i: usize = 0;
    while i < a.len()
        invariant
            a@.len() == b@.len(),
            i <= a@.len(),
            forall|j: int| 0 <= j < i ==> a@[j] == b@[j],
        decreases a@.len() - i,
    {
        if a[i] != b[i] {
            return false;
        }
        i = i + 1;
    }
    assert(a@ =~= b@);
    true
}

/// The game that a ROM title selects, if it is one of the supported ones.
pub fn lookup(rom_title: &[u8]) -> (r: Option<Game>)
    ensures
        r matches Some(g) ==> title_of(g) == rom_title@,
        r is None ==> forall|g: Game| title_of(g) != rom_title@,
{
    let games = [Game::Megaman6Fxx, Game::Megaman6Gxx, Game::Rockexe6Rxx, Game::Rockexe6Gxx];
    let mut i: usize = 0;
    while i < 4
        invariant
            i <= 4,
            games@ == seq![
                Game::Megaman6Fxx,
                Game::Megaman6Gxx,
                Game::Rockexe6Rxx,
                Game::Rockexe6Gxx,
            ],
            forall|j: int| 0 <= j < i ==> title_of(games@[j]) != rom_title@,
        decreases 4 - i,
    {
        let g = games[i];
        let t = title(g);
        if bytes_eq(t.as_slice(), rom_title) {
            return Some(g);
        }
        i = i + 1;
    }
    proof {
        assert forall|g: Game| title_of(g) != rom_title@ by {
            match g {
                Game::Megaman6Fxx => assert(title_of(games@[0]) != rom_title@),
                Game::Megaman6Gxx => assert(title_of(games@[1]) != rom_title@),
                Game::Rockexe6Rxx => assert(title_of(games@[2]) != rom_title@),
                Game::Rockexe6Gxx => assert(title_of(games@[3]) != rom_title@),
            }
        }
    }
    None
}

} // verus!
