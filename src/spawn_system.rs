use vstd::prelude::*;
use crate::player::Point;

verus! {

/// Number of entries in the spawn table.
pub const SPAWN_COUNT: usize = 5;

/// The fixed spawn table, as coordinate bit patterns:
/// (20, 10, 20), (-100, 10, -80), (120, 10, 80), (-180, 10, 20), (130, 10, -130).
pub open spec fn spawn_table() -> Seq<Point> {
    seq![
        (0x41a00000u32, 0x41200000u32, 0x41a00000u32),
        (0xc2c80000u32, 0x41200000u32, 0xc2a00000u32),
        (0x42f00000u32, 0x41200000u32, 0x42a00000u32),
        (0xc3340000u32, 0x41200000u32, 0x41a00000u32),
        (0x43020000u32, 0x41200000u32, 0xc3020000u32),
    ]
}

/// The spawn point chosen when `count` participants are registered.
pub open spec fn spawn_point(count: int) -> Point {
    spawn_table()[count % (SPAWN_COUNT as int)]
}

/// Round-robin selection over the fixed spawn table.
pub struct SpawnSystem {
    spawn_positions: Vec<Point>,
}

impl View for SpawnSystem {
    type V = Seq<Point>;

    closed spec fn view(&self) -> Seq<Point> {
        self.spawn_positions@
    }
}

impl SpawnSystem {
    pub open spec fn wf(&self) -> bool {
        self@ == spawn_table()
    }

    pub fn new() -> (r: SpawnSystem)
        ensures
            r.wf(),
    {
        let spawn_positions: Vec<Point> = vec![
            (0x41a00000u32, 0x41200000u32, 0x41a00000u32),
            (0xc2c80000u32, 0x41200000u32, 0xc2a00000u32),
            (0x42f00000u32, 0x41200000u32, 0x42a00000u32),
            (0xc3340000u32, 0x41200000u32, 0x41a00000u32),
            (0x43020000u32, 0x41200000u32, 0xc3020000u32),
        ];
        let r = SpawnSystem { spawn_positions };
        assert(r@ =~= spawn_table());
        r
    }

    pub fn get_spawn_position(&self, player_count: usize) -> (r: Point)
        requires
            self.wf(),
        ensures
            r == spawn_point(player_count as int),
    {
        let spawn_index = player_count % self.spawn_positions.len();
        self.spawn_positions[spawn_index]
    }
}

} // verus!
