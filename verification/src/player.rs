//! The player: where it stands and how long it has been under water.

use crate::coordinate::{displaced, Coordinate, CoordinateController};
use vstd::prelude::*;

verus! {

/// The number of landings on water in a row at which the player drowns.
pub const DROWNING_STREAK: u32 = 10;

/// The player of the game.
#[derive(Debug)]
pub struct Player {
    /// The character that shows the player on the screen.
    pub icon: char,
    position: Coordinate,
    blocks_in_water: u32,
    is_drowned: bool,
}

/// The mathematical value of a [`Player`].
pub struct PlayerView {
    /// The character that shows the player on the screen.
    pub icon: char,
    pub position: (int, int),
    /// Landings on water in a row since the last landing elsewhere.
    pub streak: nat,
    /// Whether the player has ever drowned.
    pub drowned: bool,
}

/// The largest streak that is counted. A streak that has reached it stays
/// there.
pub open spec fn streak_limit() -> nat {
    u32::MAX as nat
}

impl PlayerView {
    /// The player as the game starts.
    pub open spec fn start() -> PlayerView {
        PlayerView { icon: '\u{2657}', position: (3, 3), streak: 0, drowned: false }
    }

    /// Whether the landing that left the player in this state is the one at
    /// which the streak has reached the drowning streak.
    pub open spec fn drowning(self) -> bool {
        self.streak == DROWNING_STREAK
    }

    /// The player after one more landing on water.
    pub open spec fn in_water(self) -> PlayerView {
        let streak = if self.streak < streak_limit() {
            self.streak + 1
        } else {
            self.streak
        };
        PlayerView { streak, drowned: self.drowned || streak == DROWNING_STREAK, ..self }
    }

    /// The player after a landing on anything but water.
    pub open spec fn outside_water(self) -> PlayerView {
        PlayerView { streak: 0, ..self }
    }

    /// The player after `landings` landings on water in a row.
    pub open spec fn wade(self, landings: nat) -> PlayerView
        decreases landings,
    {
        if landings == 0 {
            self
        } else {
            self.wade((landings - 1) as nat).in_water()
        }
    }
}

impl View for Player {
    type V = PlayerView;

    closed spec fn view(&self) -> PlayerView {
        PlayerView {
            icon: self.icon,
            position: self.position.pair(),
            streak: self.blocks_in_water as nat,
            drowned: self.is_drowned,
        }
    }
}

impl Default for Player {
    fn default() -> (player: Self)
        ensures
            player@ == PlayerView::start(),
    {
        Self::new()
    }
}

impl Player {
    /// The player as the game starts: at (3, 3), dry and alive.
    pub fn new() -> (player: Self)
        ensures
            player@ == PlayerView::start(),
    {
        Self {
            icon: '\u{2657}',
            position: Coordinate { x: 3, y: 3 },
            blocks_in_water: 0,
            is_drowned: false,
        }
    }

    /// Records a landing on water. The result says whether the player drowns
    /// by it: the streak has reached [`DROWNING_STREAK`] with this landing.
    pub fn move_in_water(&mut self) -> (drowning: bool)
        ensures
            final(self)@ == old(self)@.in_water(),
            drowning == final(self)@.drowning(),
    {
        if self.blocks_in_water < u32::MAX {
            self.blocks_in_water = self.blocks_in_water + 1;
        }
        if self.blocks_in_water == DROWNING_STREAK {
            self.is_drowned = true;
            true
        } else {
            false
        }
    }

    /// Records a landing on anything but water.
    pub fn move_outside_water(&mut self)
        ensures
            final(self)@ == old(self)@.outside_water(),
    {
        self.blocks_in_water = 0;
    }

    /// Whether the player has ever drowned. The player is left as it is.
    pub fn is_drowned(&mut self) -> (drowned: bool)
        ensures
            drowned == old(self)@.drowned,
            final(self)@ == old(self)@,
    {
        self.is_drowned
    }

    /// Whether the player has ever drowned.
    pub fn has_drowned(&self) -> (drowned: bool)
        ensures
            drowned == self@.drowned,
    {
        self.is_drowned
    }

    /// Landings on water in a row since the last landing elsewhere.
    pub fn blocks_in_water(&self) -> (streak: u32)
        ensures
            streak == self@.streak,
    {
        self.blocks_in_water
    }
}

impl CoordinateController for Player {
    open spec fn position(&self) -> (int, int) {
        self@.position
    }

    fn move_by(&mut self, coordinate: &Coordinate)
        ensures
            final(self)@ == (PlayerView {
                position: displaced(old(self)@.position, coordinate.pair()),
                ..old(self)@
            }),
    {
        self.position.x = self.position.x + coordinate.x;
        self.position.y = self.position.y + coordinate.y;
    }

    fn get_position(&self) -> (at: Coordinate)
        ensures
            at.pair() == self@.position,
    {
        Coordinate { x: self.position.x, y: self.position.y }
    }

    fn get_x(&self) -> (x: i32)
        ensures
            x == self@.position.0,
    {
        self.position.x
    }

    fn get_y(&self) -> (y: i32)
        ensures
            y == self@.position.1,
    {
        self.position.y
    }
}

/// A dry player who has not drowned is drowned after a number of landings on
/// water in a row exactly when they are ten or more, and the only landing
/// that tells of drowning is the tenth.
pub proof fn drowning_takes_ten_landings(player: PlayerView, landings: nat)
    requires
        player.streak == 0,
        !player.drowned,
    ensures
        player.wade(landings).drowned <==> landings >= DROWNING_STREAK,
        player.wade(landings).drowning() <==> landings == DROWNING_STREAK,
    decreases landings,
{
    wade_counts_landings(player, landings);
    if landings > 0 {
        drowning_takes_ten_landings(player, (landings - 1) as nat);
    }
}

/// One landing elsewhere ends the streak, whatever it was: ten landings on
/// water in a row are needed again to reach the drowning streak, and the
/// tenth of them tells of drowning. A player who has drowned stays drowned.
pub proof fn landing_elsewhere_starts_over(player: PlayerView, landings: nat)
    ensures
        player.outside_water().streak == 0,
        player.outside_water().drowned == player.drowned,
        player.outside_water().wade(landings).drowning() <==> landings == DROWNING_STREAK,
        player.drowned ==> player.outside_water().wade(landings).drowned,
        player.drowned ==> player.wade(landings).drowned,
    decreases landings,
{
    wade_counts_landings(player.outside_water(), landings);
    if landings > 0 {
        landing_elsewhere_starts_over(player, (landings - 1) as nat);
    }
}

/// The position and the icon of a player are the same after any landings on
/// water.
pub proof fn wading_leaves_the_player_in_place(player: PlayerView, landings: nat)
    ensures
        player.wade(landings).position == player.position,
        player.wade(landings).icon == player.icon,
    decreases landings,
{
    if landings > 0 {
        wading_leaves_the_player_in_place(player, (landings - 1) as nat);
    }
}

/// The streak after landings on water in a row is their number, as far as
/// streaks are counted.
pub proof fn wade_counts_landings(player: PlayerView, landings: nat)
    requires
        player.streak == 0,
    ensures
        player.wade(landings).streak == if landings < streak_limit() {
            landings
        } else {
            streak_limit()
        },
    decreases landings,
{
    if landings > 0 {
        wade_counts_landings(player, (landings - 1) as nat);
    }
}

} // verus!
