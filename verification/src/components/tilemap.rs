//! The static tile grid used for collision, and the mapping from tile ids
//! to tile types.

use vstd::prelude::*;

verus! {

/// Largest supported grid side, in tiles.
pub const MAX_MAP_DIM: usize = 1_000_000;

/// Largest supported tile side, in world units.
pub const MAX_TILE_SIZE: u32 = 65_536;

/// Identifier of one tile kind, as stored in the grid.
#[derive(Clone, Copy, PartialEq, Eq, Structural, Hash, Debug)]
pub struct TileId(pub u32);

/// Traversability class of a tile kind.
#[derive(Clone, Copy, PartialEq, Eq, Structural, Debug)]
pub enum TileType {
    Empty,
    Floor,
    Wall,
    Water,
    Lava,
}

/// Why a grid could not be built from raw rows.
#[derive(Clone, Copy, PartialEq, Eq, Structural, Debug)]
pub enum TilemapError {
    /// No rows were given.
    Empty,
    /// Some row is longer or shorter than the first.
    InconsistentRowWidth,
    /// A dimension is beyond the supported bounds, or the tile size is
    /// zero or beyond them.
    InvalidGeometry,
}

/// Mapping from tile id to tile type: a dense table indexed by the id.
/// Ids at or beyond the end of the table are unmapped.
pub struct TileTypes {
    pub types: Vec<TileType>,
}

impl TileTypes {
    /// The type mapped to `id`, if any.
    pub open spec fn spec_type_of(self, id: TileId) -> Option<TileType> {
        if id.0 < self.types@.len() {
            Some(self.types@[id.0 as int])
        } else {
            None
        }
    }

    /// A mapping that assigns `types[i]` to tile id `i`.
    pub fn new(types: Vec<TileType>) -> (t: TileTypes)
        ensures
            t.types@ == types@,
    {
        TileTypes { types }
    }

    /// Look up the type of `id`; an unmapped id yields nothing.
    pub fn get(&self, id: TileId) -> (r: Option<TileType>)
        ensures
            r == self.spec_type_of(id),
    {
        if (id.0 as usize) < self.types.len() {
            Some(self.types[id.0 as usize])
        } else {
            None
        }
    }
}

/// A rectangular grid of tile ids with a tile size in world units.
/// Row `y` of `tiles` holds the ids of grid row `y`, left to right.
pub struct Tilemap {
    pub width: usize,
    pub height: usize,
    pub tile_size: u32,
    pub tiles: Vec<Vec<TileId>>,
}

impl Tilemap {
    /// Well-formedness: the tile table is exactly `height` rows of exactly
    /// `width` ids, and every dimension is within the supported bounds.
    pub open spec fn wf(self) -> bool {
        &&& self.tiles@.len() == self.height
        &&& forall|y: int| 0 <= y < self.height ==> #[trigger] self.tiles@[y]@.len() == self.width
        &&& 1 <= self.tile_size <= MAX_TILE_SIZE
        &&& self.width <= MAX_MAP_DIM
        &&& self.height <= MAX_MAP_DIM
    }

    /// The id stored at grid cell `(tx, ty)`.
    pub open spec fn spec_tile_at(self, tx: int, ty: int) -> TileId {
        self.tiles@[ty]@[tx]
    }

    /// Whether cell `(tx, ty)` blocks generic traversal under `tile_types`:
    /// out-of-bounds cells are solid, mapped Wall and Lava tiles are solid,
    /// everything else (unmapped ids included) is not.
    pub open spec fn spec_is_solid(self, x: int, y: int, tile_types: TileTypes) -> bool {
        if 0 <= x < self.width && 0 <= y < self.height {
            match tile_types.spec_type_of(self.spec_tile_at(x, y)) {
                Some(t) => t == TileType::Wall || t == TileType::Lava,
                None => false,
            }
        } else {
            true
        }
    }

    /// An empty grid: `width` by `height` cells, all holding tile id 0.
    pub fn new(width: usize, height: usize, tile_size: u32) -> (tm: Tilemap)
        requires
            width <= MAX_MAP_DIM,
            height <= MAX_MAP_DIM,
            1 <= tile_size <= MAX_TILE_SIZE,
        ensures
            tm.width == width,
            tm.height == height,
            tm.tile_size == tile_size,
            tm.wf(),
            forall|ty: int, tx: int|
                0 <= ty < height && 0 <= tx < width ==> tm.spec_tile_at(tx, ty) == TileId(0u32),
    {
        let mut tiles: Vec<Vec<TileId>> = Vec::new();
        let mut y: usize = 0;
        while y < height
            invariant
                y <= height,
                tiles@.len() == y,
                forall|j: int| 0 <= j < y ==> #[trigger] tiles@[j]@.len() == width,
                forall|j: int, i: int|
                    0 <= j < y && 0 <= i < width ==> #[trigger] tiles@[j]@[i] == TileId(0u32),
            decreases height - y,
        {
            let mut row: Vec<TileId> = Vec::new();
            let mut x: usize = 0;
            while x < width
                invariant
                    x <= width,
                    row@.len() == x,
                    forall|i: int| 0 <= i < x ==> #[trigger] row@[i] == TileId(0u32),
                decreases width - x,
            {
                row.push(TileId(0));
                x = x + 1;
            }
            tiles.push(row);
            y = y + 1;
        }
        Tilemap { width, height, tile_size, tiles }
    }

    /// Build a grid from raw rows of tile ids, validating the shape:
    /// there must be at least one row, every row must match the first row's
    /// length, and the dimensions and tile size must be supported.
    pub fn from_rows(rows: Vec<Vec<u32>>, tile_size: u32) -> (r: Result<Tilemap, TilemapError>)
        ensures
            r == Err::<Tilemap, TilemapError>(TilemapError::Empty) <==> rows@.len() == 0,
            r == Err::<Tilemap, TilemapError>(TilemapError::InconsistentRowWidth) <==> (rows@.len()
                > 0 && exists|y: int|
                0 <= y < rows@.len() && #[trigger] rows@[y]@.len() != rows@[0]@.len()),
            r == Err::<Tilemap, TilemapError>(TilemapError::InvalidGeometry) <==> (rows@.len() > 0
                && (forall|y: int| 0 <= y < rows@.len() ==> #[trigger] rows@[y]@.len()
                == rows@[0]@.len()) && (rows@.len() > MAX_MAP_DIM || rows@[0]@.len() > MAX_MAP_DIM
                || tile_size == 0 || tile_size > MAX_TILE_SIZE)),
            r matches Ok(tm) ==> {
                &&& tm.wf()
                &&& tm.height == rows@.len()
                &&& tm.width == rows@[0]@.len()
                &&& tm.tile_size == tile_size
                &&& forall|y: int, x: int|
                    0 <= y < tm.height && 0 <= x < tm.width ==> #[trigger] tm.spec_tile_at(x, y)
                        == TileId(rows@[y]@[x])
            },
    {
        if rows.len() == 0 {
            return Err(TilemapError::Empty);
        }
        let width = rows[0].len();
        let height = rows.len();
        let mut y: usize = 0;
        while y < height
            invariant
                y <= height,
                height == rows@.len(),
                width == rows@[0]@.len(),
                forall|j: int| 0 <= j < y ==> #[trigger] rows@[j]@.len() == width,
            decreases height - y,
        {
            if rows[y].len() != width {
                return Err(TilemapError::InconsistentRowWidth);
            }
            y = y + 1;
        }
        if height > MAX_MAP_DIM || width > MAX_MAP_DIM || tile_size == 0 || tile_size
            > MAX_TILE_SIZE {
            return Err(TilemapError::InvalidGeometry);
        }
        let mut tiles: Vec<Vec<TileId>> = Vec::new();
        let mut j: usize = 0;
        while j < height
            invariant
                j <= height,
                height == rows@.len(),
                width == rows@[0]@.len(),
                forall|k: int| 0 <= k < height ==> #[trigger] rows@[k]@.len() == width,
                tiles@.len() == j,
                forall|k: int| 0 <= k < j ==> #[trigger] tiles@[k]@.len() == width,
                forall|k: int, i: int|
                    0 <= k < j && 0 <= i < width ==> #[trigger] tiles@[k]@[i] == TileId(
                        rows@[k]@[i],
                    ),
            decreases height - j,
        {
            let mut row: Vec<TileId> = Vec::new();
            let mut i: usize = 0;
            while i < width
                invariant
                    i <= width,
                    j < height,
                    height == rows@.len(),
                    width == rows@[0]@.len(),
                    forall|k: int| 0 <= k < height ==> #[trigger] rows@[k]@.len() == width,
                    row@.len() == i,
                    forall|k: int| 0 <= k < i ==> #[trigger] row@[k] == TileId(rows@[j as int]@[k]),
                decreases width - i,
            {
                row.push(TileId(rows[j][i]));
                i = i + 1;
            }
            tiles.push(row);
            j = j + 1;
        }
        Ok(Tilemap { width, height, tile_size, tiles })
    }

    /// The id at `(x, y)`, or nothing when out of bounds.
    pub fn get_tile(&self, x: usize, y: usize) -> (r: Option<TileId>)
        requires
            self.wf(),
        ensures
            x < self.width && y < self.height ==> r == Some(self.spec_tile_at(x as int, y as int)),
            !(x < self.width && y < self.height) ==> r is None,
    {
        if x < self.width && y < self.height {
            Some(self.tiles[y][x])
        } else {
            None
        }
    }

    /// Store `tile` at `(x, y)`; out-of-bounds writes have no effect.
    pub fn set_tile(&mut self, x: usize, y: usize, tile: TileId)
        requires
            old(self).wf(),
        ensures
            final(self).wf(),
            final(self).width == old(self).width,
            final(self).height == old(self).height,
            final(self).tile_size == old(self).tile_size,
            x < old(self).width && y < old(self).height ==> {
                &&& final(self).spec_tile_at(x as int, y as int) == tile
                &&& forall|ty: int, tx: int|
                    0 <= ty < old(self).height && 0 <= tx < old(self).width && !(tx == x && ty
                        == y) ==> final(self).spec_tile_at(tx, ty) == old(self).spec_tile_at(
                        tx,
                        ty,
                    )
            },
            !(x < old(self).width && y < old(self).height) ==> final(self).tiles@ == old(
                self,
            ).tiles@,
    {
        if x < self.width && y < self.height {
            let row = &mut self.tiles[y];
            row.set(x, tile);
        }
    }

    /// Whether `(x, y)` blocks generic traversal under `tile_types`
    /// (out-of-bounds counts as solid).
    pub fn is_solid(&self, x: usize, y: usize, tile_types: &TileTypes) -> (r: bool)
        requires
            self.wf(),
        ensures
            r == self.spec_is_solid(x as int, y as int, *tile_types),
    {
        match self.get_tile(x, y) {
            Some(tile_id) => {
                match tile_types.get(tile_id) {
                    Some(tile_type) => tile_type == TileType::Wall || tile_type == TileType::Lava,
                    None => false,
                }
            },
            None => true,
        }
    }
}

} // verus!
