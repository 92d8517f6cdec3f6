//! The shadow side of a match: which game it runs and whether this peer
//! made the winning offer. The emulator core behind it is driven by the
//! host application.
use vstd::prelude::*;

use crate::hooks::Game;

verus! {

pub struct Shadow {
    rom_path: String,
    game: Game,
    is_offerer: bool,
}

impl Shadow {
    /// A shadow for the ROM at `rom_path`, running `game`'s traps.
    pub fn new(rom_path: String, game: Game, is_offerer: bool) -> (r: Shadow)
        ensures
            r.rom_path() == rom_path@,
            r.game() == game,
            r.is_offerer() == is_offerer,
    {
        Shadow { rom_path, game, is_offerer }
    }

    pub closed spec fn rom_path(&self) -> Seq<char> {
        self.rom_path@
    }

    pub closed spec fn game(&self) -> Game {
        self.game
    }

    pub closed spec fn is_offerer(&self) -> bool {
        self.is_offerer
    }

    pub fn get_game(&self) -> (r: Game)
        ensures
            r == self.game(),
    {
        self.game
    }

    pub fn get_is_offerer(&self) -> (r: bool)
        ensures
            r == self.is_offerer(),
    {
        self.is_offerer
    }

    pub fn get_rom_path(&self) -> (r: &String)
        ensures
            r@ == self.rom_path(),
    {
        &self.rom_path
    }
}

} // verus!
