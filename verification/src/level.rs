//! How level geometry is drawn: which material a wall uses and how a wall is
//! cut into a floor part and an upper part.
use vstd::prelude::*;

verus! {

/// The kinds of level blocks, from a plain floor tile to a tall wall.
#[derive(Debug, Clone, Copy, PartialEq, Eq, Structural)]
pub enum WallKind {
    Floor,
    Short,
    Standard,
    Tall,
}

/// The materials of the wall assets; each names one material handle.
#[derive(Debug, Clone, Copy, PartialEq, Eq, Structural)]
pub enum WallMaterial {
    Floor,
    ShortWall,
    Wall,
    TallWall,
    ShortWallTrans,
    WallTrans,
    TallWallTrans,
}

/// Marker for the drawn pieces of a level block that are walls.
#[derive(Debug, Clone, Copy, PartialEq, Eq, Structural)]
pub struct Wall;

impl WallKind {
    /// Whether this kind is a wall (everything but a floor).
    pub open spec fn spec_is_wall(self) -> bool {
        !(self is Floor)
    }

    /// The opaque material of this kind.
    pub open spec fn spec_opaque(self) -> WallMaterial {
        match self {
            WallKind::Floor => WallMaterial::Floor,
            WallKind::Short => WallMaterial::ShortWall,
            WallKind::Standard => WallMaterial::Wall,
            WallKind::Tall => WallMaterial::TallWall,
        }
    }

    /// The see-through material of this kind; floors have none and keep
    /// their opaque material.
    pub open spec fn spec_trans(self) -> WallMaterial {
        match self {
            WallKind::Floor => WallMaterial::Floor,
            WallKind::Short => WallMaterial::ShortWallTrans,
            WallKind::Standard => WallMaterial::WallTrans,
            WallKind::Tall => WallMaterial::TallWallTrans,
        }
    }

    pub fn is_wall(&self) -> (r: bool)
        ensures
            r == self.spec_is_wall(),
            r == (*self != WallKind::Floor),
    {
        match self {
            WallKind::Floor => false,
            WallKind::Short | WallKind::Standard | WallKind::Tall => true,
        }
    }

    pub fn opaque(&self) -> (m: WallMaterial)
        ensures
            m == self.spec_opaque(),
            *self == WallKind::Floor ==> m == WallMaterial::Floor,
            *self == WallKind::Short ==> m == WallMaterial::ShortWall,
            *self == WallKind::Standard ==> m == WallMaterial::Wall,
            *self == WallKind::Tall ==> m == WallMaterial::TallWall,
    {
        match self {
            WallKind::Floor => WallMaterial::Floor,
            WallKind::Short => WallMaterial::ShortWall,
            WallKind::Standard => WallMaterial::Wall,
            WallKind::Tall => WallMaterial::TallWall,
        }
    }

    pub fn trans(&self) -> (m: WallMaterial)
        ensures
            m == self.spec_trans(),
            *self == WallKind::Floor ==> m == WallMaterial::Floor,
            *self == WallKind::Short ==> m == WallMaterial::ShortWallTrans,
            *self == WallKind::Standard ==> m == WallMaterial::WallTrans,
            *self == WallKind::Tall ==> m == WallMaterial::TallWallTrans,
    {
        match self {
            WallKind::Floor => WallMaterial::Floor,
            WallKind::Short => WallMaterial::ShortWallTrans,
            WallKind::Standard => WallMaterial::WallTrans,
            WallKind::Tall => WallMaterial::TallWallTrans,
        }
    }
}


/// Which part of a level block a drawn piece covers. A wall is cut at floor
/// level into a `Base`, which is drawn as floor, and an `Upper` part, so that
/// only the part above the floor can be shown see-through; a floor is drawn
/// `Whole`.
#[derive(Debug, Clone, Copy, PartialEq, Eq, Structural)]
pub enum WallPart {
    Base,
    Upper,
    Whole,
}

/// One drawn piece of a level block: the part it covers and the kind it is
/// drawn as.
#[derive(Debug, Clone, Copy, PartialEq, Eq, Structural)]
pub struct WallPiece {
    pub part: WallPart,
    pub kind: WallKind,
}

/// The pieces that a block of the given kind is drawn as.
pub open spec fn spec_wall_pieces(kind: WallKind) -> Seq<WallPiece> {
    if kind.spec_is_wall() {
        seq![
            WallPiece { part: WallPart::Base, kind: WallKind::Floor },
            WallPiece { part: WallPart::Upper, kind: kind },
        ]
    } else {
        seq![WallPiece { part: WallPart::Whole, kind: kind }]
    }
}

/// The pieces that a level block of `kind` is drawn as, in drawing order.
/// Each piece is drawn with `piece.kind.opaque()`, blocks sight, and is
/// marked as a `Wall` exactly when `piece.kind.is_wall()`.
pub fn wall_pieces(kind: WallKind) -> (pieces: Vec<WallPiece>)
    ensures
        pieces@ == spec_wall_pieces(kind),
        kind != WallKind::Floor ==> pieces@ == seq![
            WallPiece { part: WallPart::Base, kind: WallKind::Floor },
            WallPiece { part: WallPart::Upper, kind: kind },
        ],
        kind == WallKind::Floor ==> pieces@ == seq![WallPiece { part: WallPart::Whole, kind: WallKind::Floor }],
{
    let mut pieces: Vec<WallPiece> = Vec::new();
    if kind.is_wall() {
        pieces.push(WallPiece { part: WallPart::Base, kind: WallKind::Floor });
        pieces.push(WallPiece { part: WallPart::Upper, kind });
    } else {
        pieces.push(WallPiece { part: WallPart::Whole, kind });
    }
    pieces
}

/// A floor tile is never a wall, and its see-through material is its opaque
/// one; every wall kind has a see-through material different from its
/// opaque one, and different wall kinds never share a material.
pub proof fn lemma_wall_materials(a: WallKind, b: WallKind)
    ensures
        !WallKind::Floor.spec_is_wall(),
        WallKind::Floor.spec_trans() == WallKind::Floor.spec_opaque(),
        a.spec_is_wall() ==> a.spec_trans() != a.spec_opaque(),
        a != b ==> a.spec_opaque() != b.spec_opaque(),
        a != b ==> a.spec_trans() != b.spec_trans(),
{
}

/// A wall is drawn as a floor-level base piece and one upper piece of its own
/// kind; a floor is drawn as one whole piece. Exactly one drawn piece is a
/// wall when the block is a wall, and none when it is a floor.
pub proof fn lemma_wall_pieces(kind: WallKind)
    ensures
        kind.spec_is_wall() ==> spec_wall_pieces(kind).len() == 2
            && !spec_wall_pieces(kind)[0].kind.spec_is_wall()
            && spec_wall_pieces(kind)[1].kind == kind,
        !kind.spec_is_wall() ==> spec_wall_pieces(kind).len() == 1
            && spec_wall_pieces(kind)[0].kind == kind,
        forall|i: int|
            0 <= i < spec_wall_pieces(kind).len() && #[trigger] spec_wall_pieces(kind)[i].kind.spec_is_wall()
                ==> spec_wall_pieces(kind)[i].kind == kind,
{
}


/// The offset of the first of `n` lights along one axis of the level, in
/// half light spacings: an even count is offset by half a spacing less than
/// `n / 2` spacings, an odd count by `(n - 1) / 2` spacings.
pub open spec fn spec_light_offset(n: int) -> int {
    if n % 2 == 0 {
        -((n / 2 - 1) * 2 + 1)
    } else {
        -(n - 1)
    }
}

/// The offset, in half light spacings, of the first of `n` lights along one
/// axis of the level.
pub fn light_offset(n: usize) -> (offset: i64)
    requires
        1 <= n <= 0x3fff_ffff_ffff_ffff,
    ensures
        offset == spec_light_offset(n as int),
{
    if n % 2 == 0 {
        let half = (n / 2) as i64;
        -((half - 1) * 2 + 1)
    } else {
        -((n - 1) as i64)
    }
}

/// Whichever its parity, a row of `n` lights is offset by `n - 1` half
/// spacings, so that the row is centred on the middle of the level: the
/// light at step `k` mirrors the one at step `n - 1 - k`.
pub proof fn lemma_lights_centred(n: int, k: int)
    requires
        1 <= n,
        0 <= k < n,
    ensures
        spec_light_offset(n) == -(n - 1),
        2 * k + spec_light_offset(n) == -(2 * (n - 1 - k) + spec_light_offset(n)),
{
}

/// The positions of row `x` of an `nx` by `nz` grid of lights, in half
/// spacings from the middle of the level.
pub open spec fn spec_light_row(nx: int, nz: int, x: int) -> Seq<(i64, i64)> {
    Seq::new(
        nz as nat,
        |z: int| ((2 * x + spec_light_offset(nx)) as i64, (2 * z + spec_light_offset(nz)) as i64),
    )
}

/// The positions of the first `x` rows of the grid, row after row.
pub open spec fn spec_light_rows(nx: int, nz: int, x: int) -> Seq<(i64, i64)>
    decreases x,
{
    if x <= 0 {
        Seq::empty()
    } else {
        spec_light_rows(nx, nz, x - 1) + spec_light_row(nx, nz, x - 1)
    }
}

/// The positions of an `nx` by `nz` grid of lights over the level, row after
/// row, in half light spacings from the middle of the level.
pub fn light_grid(nx: usize, nz: usize) -> (cells: Vec<(i64, i64)>)
    requires
        1 <= nx <= 0x3fff_ffff_ffff_ffff,
        1 <= nz <= 0x3fff_ffff_ffff_ffff,
    ensures
        cells@ == spec_light_rows(nx as int, nz as int, nx as int),
{
    let xoffset = light_offset(nx);
    let zoffset = light_offset(nz);
    let mut cells: Vec<(i64, i64)> = Vec::new();
    let mut x: usize = 0;
    while x < nx
        invariant
            1 <= nx <= 0x3fff_ffff_ffff_ffff,
            1 <= nz <= 0x3fff_ffff_ffff_ffff,
            xoffset == spec_light_offset(nx as int),
            zoffset == spec_light_offset(nz as int),
            x <= nx,
            cells@ == spec_light_rows(nx as int, nz as int, x as int),
        decreases nx - x,
    {
        let ghost before = cells@;
        let mut z: usize = 0;
        while z < nz
            invariant
                1 <= nx <= 0x3fff_ffff_ffff_ffff,
                1 <= nz <= 0x3fff_ffff_ffff_ffff,
                xoffset == spec_light_offset(nx as int),
                zoffset == spec_light_offset(nz as int),
                x < nx,
                z <= nz,
                cells@ =~= before + spec_light_row(nx as int, nz as int, x as int).take(z as int),
            decreases nz - z,
        {
            let cx = 2 * (x as i64) + xoffset;
            let cz = 2 * (z as i64) + zoffset;
            cells.push((cx, cz));
            z = z + 1;
            assert(cells@ =~= before + spec_light_row(nx as int, nz as int, x as int).take(z as int));
        }
        assert(spec_light_row(nx as int, nz as int, x as int).take(nz as int) =~= spec_light_row(
            nx as int,
            nz as int,
            x as int,
        ));
        x = x + 1;
    }
    cells
}


/// The grid holds `nx * nz` lights, and the light of row `x` and column `z`
/// comes at position `x * nz + z`, at `2 * x - (nx - 1)` and
/// `2 * z - (nz - 1)` half spacings from the middle of the level.
pub proof fn lemma_light_grid(nx: int, nz: int, x: int, z: int)
    requires
        1 <= nx,
        1 <= nz <= 0x3fff_ffff_ffff_ffff,
        nx <= 0x3fff_ffff_ffff_ffff,
        0 <= x < nx,
        0 <= z < nz,
    ensures
        spec_light_rows(nx, nz, nx).len() == nx * nz,
        spec_light_rows(nx, nz, nx)[x * nz + z] == ((2 * x - (nx - 1)) as i64, (2 * z - (nz - 1)) as i64),
{
    lemma_light_rows(nx, nz, nx, x, z);
    lemma_lights_centred(nx, x);
    lemma_lights_centred(nz, z);
}

proof fn lemma_light_rows(nx: int, nz: int, n: int, x: int, z: int)
    requires
        1 <= nx,
        1 <= nz,
        0 <= n,
        0 <= z < nz,
    ensures
        spec_light_rows(nx, nz, n).len() == n * nz,
        0 <= x < n ==> spec_light_rows(nx, nz, n)[x * nz + z] == spec_light_row(nx, nz, x)[z],
    decreases n,
{
    if n > 0 {
        lemma_light_rows(nx, nz, n - 1, x, z);
        assert((n - 1) * nz + nz == n * nz) by (nonlinear_arith);
        if 0 <= x < n - 1 {
            assert(x * nz + z < (n - 1) * nz) by (nonlinear_arith)
                requires
                    0 <= x < n - 1,
                    0 <= z < nz,
            {
                assert(x * nz + nz <= (n - 1) * nz);
            }
            assert(0 <= x * nz) by (nonlinear_arith)
                requires
                    0 <= x,
                    0 <= nz,
            ;
        } else if x == n - 1 {
            assert(x * nz == (n - 1) * nz);
        }
    }
    lemma_lights_centred(nz, z);
}


/// How every level block is drawn: a wall of kind `k` (any kind but a floor)
/// is drawn as exactly two pieces, first the `Base` part below floor level in
/// the floor's kind, then the `Upper` part in its own kind; a floor is drawn as
/// one `Whole` piece. So the piece drawn as floor is always the base, and the
/// piece of the wall's kind is always the upper part.
pub proof fn lemma_wall_pieces_layout(kind: WallKind)
    ensures
        kind != WallKind::Floor ==> {
            &&& spec_wall_pieces(kind).len() == 2
            &&& spec_wall_pieces(kind)[0].part == WallPart::Base
            &&& spec_wall_pieces(kind)[0].kind == WallKind::Floor
            &&& spec_wall_pieces(kind)[1].part == WallPart::Upper
            &&& spec_wall_pieces(kind)[1].kind == kind
        },
        kind == WallKind::Floor ==> {
            &&& spec_wall_pieces(kind).len() == 1
            &&& spec_wall_pieces(kind)[0].part == WallPart::Whole
            &&& spec_wall_pieces(kind)[0].kind == WallKind::Floor
        },
        forall|i: int|
            0 <= i < spec_wall_pieces(kind).len() ==> ((#[trigger] spec_wall_pieces(kind)[i]).part
                == WallPart::Base <==> (kind != WallKind::Floor && spec_wall_pieces(kind)[i].kind
                == WallKind::Floor)),
{
}

/// Each block kind has its own materials: a floor is drawn with the floor
/// material whether opaque or see-through, and each wall kind with the wall
/// material of its height (short, standard, tall), opaque or see-through.
pub proof fn lemma_wall_material_names(kind: WallKind)
    ensures
        kind == WallKind::Floor ==> kind.spec_opaque() == WallMaterial::Floor && kind.spec_trans()
            == WallMaterial::Floor,
        kind == WallKind::Short ==> kind.spec_opaque() == WallMaterial::ShortWall && kind.spec_trans()
            == WallMaterial::ShortWallTrans,
        kind == WallKind::Standard ==> kind.spec_opaque() == WallMaterial::Wall && kind.spec_trans()
            == WallMaterial::WallTrans,
        kind == WallKind::Tall ==> kind.spec_opaque() == WallMaterial::TallWall && kind.spec_trans()
            == WallMaterial::TallWallTrans,
        kind.spec_is_wall() <==> kind != WallKind::Floor,
{
}

} // verus!
