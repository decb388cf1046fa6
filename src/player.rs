use vstd::prelude::*;

verus! {

/// Full health of a participant, restored on join and respawn.
pub const MAX_HEALTH: i32 = 100;

/// A connected participant's authoritative state.
///
/// Coordinates and angles are carried as the bit patterns of IEEE-754
/// single-precision numbers: the server stores and forwards them and never
/// computes on them.
#[derive(Clone, Debug, PartialEq)]
pub struct Player {
    pub id: String,
    pub name: String,
    pub x: u32,
    pub y: u32,
    pub z: u32,
    pub rotation_x: u32,
    pub rotation_y: u32,
    pub health: i32,
    pub alive: bool,
    pub kills: i32,
}

/// A point in the world, as three coordinate bit patterns.
pub type Point = (u32, u32, u32);

impl Player {
    /// Health stays within `[0, MAX_HEALTH]`, the alive flag mirrors it,
    /// and the kill count is never negative.
    pub open spec fn wf(&self) -> bool {
        &&& 0 <= self.health <= MAX_HEALTH
        &&& self.alive == (self.health > 0)
        &&& self.kills >= 0
    }

    /// Health after `damage` is subtracted, clamped at zero.
    pub open spec fn health_after(&self, damage: int) -> int {
        if self.health - damage <= 0 {
            0
        } else {
            self.health - damage
        }
    }

    /// The state after taking `damage`.
    pub open spec fn damaged(self, damage: int) -> Player {
        let h = self.health_after(damage);
        Player { health: h as i32, alive: if h == 0 { false } else { self.alive }, ..self }
    }

    /// Whether taking `damage` is the lethal transition from positive health to zero.
    pub open spec fn is_lethal(&self, damage: int) -> bool {
        self.health > 0 && self.health_after(damage) == 0
    }

    /// The state after one more kill is credited; the counter saturates.
    pub open spec fn with_kill(self) -> Player {
        Player { kills: if self.kills < i32::MAX { (self.kills + 1) as i32 } else { self.kills }, ..self }
    }

    /// The state after moving to a position and orientation.
    pub open spec fn moved(self, x: u32, y: u32, z: u32, rotation_x: u32, rotation_y: u32) -> Player {
        Player { x, y, z, rotation_x, rotation_y, ..self }
    }

    /// The state after respawning at `p`: full health, alive, facing forward,
    /// kills and identity kept.
    pub open spec fn respawned(self, p: Point) -> Player {
        Player {
            x: p.0,
            y: p.1,
            z: p.2,
            rotation_x: 0,
            rotation_y: 0,
            health: MAX_HEALTH,
            alive: true,
            ..self
        }
    }

    pub fn new(id: String, name: String, spawn_pos: Point) -> (r: Player)
        ensures
            r.id == id,
            r.name == name,
            r.x == spawn_pos.0,
            r.y == spawn_pos.1,
            r.z == spawn_pos.2,
            r.rotation_x == 0,
            r.rotation_y == 0,
            r.health == MAX_HEALTH,
            r.alive,
            r.kills == 0,
            r.wf(),
    {
        Player {
            id,
            name,
            x: spawn_pos.0,
            y: spawn_pos.1,
            z: spawn_pos.2,
            rotation_x: 0,
            rotation_y: 0,
            health: MAX_HEALTH,
            alive: true,
            kills: 0,
        }
    }

    /// A field-by-field copy.
    pub fn snapshot(&self) -> (r: Player)
        ensures
            r == *self,
    {
        Player {
            id: self.id.clone(),
            name: self.name.clone(),
            x: self.x,
            y: self.y,
            z: self.z,
            rotation_x: self.rotation_x,
            rotation_y: self.rotation_y,
            health: self.health,
            alive: self.alive,
            kills: self.kills,
        }
    }

    pub fn update_position(&mut self, x: u32, y: u32, z: u32, rotation_x: u32, rotation_y: u32)
        ensures
            *final(self) == old(self).moved(x, y, z, rotation_x, rotation_y),
            old(self).wf() ==> final(self).wf(),
    {
        self.x = x;
        self.y = y;
        self.z = z;
        self.rotation_x = rotation_x;
        self.rotation_y = rotation_y;
    }

    /// Subtracts `damage`, clamping at zero; returns whether this was the
    /// lethal transition from positive health to zero.
    pub fn take_damage(&mut self, damage: i32) -> (died: bool)
        requires
            old(self).wf(),
            damage >= 0,
        ensures
            *final(self) == old(self).damaged(damage as int),
            died == old(self).is_lethal(damage as int),
            final(self).wf(),
    {
        let was_alive = self.health > 0;
        let remaining = self.health - damage;
        if remaining <= 0 {
            self.health = 0;
            self.alive = false;
            was_alive
        } else {
            self.health = remaining;
            false
        }
    }

    /// Credits one kill; the counter stops at `i32::MAX`.
    pub fn add_kill(&mut self)
        ensures
            *final(self) == old(self).with_kill(),
            old(self).wf() ==> final(self).wf(),
    {
        if self.kills < i32::MAX {
            self.kills = self.kills + 1;
        }
    }

    pub fn respawn(&mut self, spawn_pos: Point)
        ensures
            *final(self) == old(self).respawned(spawn_pos),
            old(self).wf() ==> final(self).wf(),
    {
        self.x = spawn_pos.0;
        self.y = spawn_pos.1;
        self.z = spawn_pos.2;
        self.rotation_x = 0;
        self.rotation_y = 0;
        self.health = MAX_HEALTH;
        self.alive = true;
    }
}

} // verus!
