//! Which screen the game shows in a frame, and what a key does there.
//!
//! The host draws and reads the keyboard. Once per frame it reports the key
//! that is down and is told what to draw and what to do next.

use vstd::prelude::*;

verus! {

/// Where the game stands.
#[derive(Copy, Clone, Debug, PartialEq, Eq, Structural)]
pub enum GameMode {
    Menu,
    Playing,
    End,
}

/// A key, as far as the menus tell keys apart.
#[derive(Copy, Clone, Debug, PartialEq, Eq, Structural)]
pub enum Key {
    Play,
    Quit,
    Other,
}

/// What the host draws in a frame.
#[derive(Copy, Clone, Debug, PartialEq, Eq, Structural)]
pub enum Screen {
    /// The opening menu.
    Menu,
    /// The closing screen, with the points earned.
    Score { points: i32 },
    /// The field of particles, after one step of the simulation.
    Field,
}

/// What the host does once the frame is drawn.
#[derive(Copy, Clone, Debug, PartialEq, Eq, Structural)]
pub enum Command {
    /// Nothing.
    Continue,
    /// A new game has begun: the frame clock starts from zero.
    Restart,
    /// The window closes.
    Quit,
}

/// The answer to one frame.
#[derive(Copy, Clone, Debug, PartialEq, Eq, Structural)]
pub struct Frame {
    pub screen: Screen,
    pub command: Command,
}

/// The mode of the game and the points earned so far.
#[derive(Copy, Clone, Debug, PartialEq, Eq, Structural)]
pub struct Game {
    pub mode: GameMode,
    pub score: i32,
}

/// What a key asks for on a menu: the play key a new game, the quit key the
/// end of the program, and anything else nothing.
pub open spec fn menu_command(key: Option<Key>) -> Command {
    match key {
        Some(Key::Play) => Command::Restart,
        Some(Key::Quit) => Command::Quit,
        _ => Command::Continue,
    }
}

impl Game {
    /// The answer to a frame in which `key` is down. Both menus listen to
    /// the keys; the field does not.
    pub open spec fn frame(self, key: Option<Key>) -> Frame {
        match self.mode {
            GameMode::Menu => Frame { screen: Screen::Menu, command: menu_command(key) },
            GameMode::End => Frame {
                screen: Screen::Score { points: self.score },
                command: menu_command(key),
            },
            GameMode::Playing => Frame { screen: Screen::Field, command: Command::Continue },
        }
    }

    /// The game after a frame in which `key` was down: a fresh game in play
    /// if the frame asked for a restart, and unchanged otherwise.
    pub open spec fn after(self, key: Option<Key>) -> Game {
        if self.frame(key).command == Command::Restart {
            Game { mode: GameMode::Playing, score: 0 }
        } else {
            self
        }
    }

    /// A game that waits at the opening menu.
    pub fn new() -> (game: Game)
        ensures
            game == (Game { mode: GameMode::Menu, score: 0 }),
    {
        Game { mode: GameMode::Menu, score: 0 }
    }

    /// Begins a new game: play starts and the points are cleared.
    pub fn restart(&mut self)
        ensures
            *final(self) == (Game { mode: GameMode::Playing, score: 0 }),
    {
        self.mode = GameMode::Playing;
        self.score = 0;
    }

    /// One frame: says what to draw and what to do next, and begins a new
    /// game if the key asked for one.
    pub fn tick(&mut self, key: Option<Key>) -> (frame: Frame)
        ensures
            frame == old(self).frame(key),
            *final(self) == old(self).after(key),
    {
        match self.mode {
            GameMode::Menu => {
                let command = self.press(key);
                Frame { screen: Screen::Menu, command }
            },
            GameMode::End => {
                let points: i32 = self.score;
                let command = self.press(key);
                Frame { screen: Screen::Score { points }, command }
            },
            GameMode::Playing => Frame { screen: Screen::Field, command: Command::Continue },
        }
    }

    /// Handles a key on one of the two menus.
    fn press(&mut self, key: Option<Key>) -> (command: Command)
        ensures
            command == menu_command(key),
            command == Command::Restart ==> *final(self) == (Game {
                mode: GameMode::Playing,
                score: 0,
            }),
            command != Command::Restart ==> *final(self) == *old(self),
    {
        match key {
            Some(Key::Play) => {
                self.restart();
                Command::Restart
            },
            Some(Key::Quit) => Command::Quit,
            _ => Command::Continue,
        }
    }
}

} // verus!
