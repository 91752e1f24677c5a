//! Collision layers: which physics layer each kind of body belongs to and
//! which layers it collides with.
use vstd::prelude::*;

verus! {

/// The physics layers of the game. Layer `n` (in declaration order) is bit `1 << n`
/// of a layer mask; the first one is the default layer.
#[derive(Clone, Copy, PartialEq, Eq, Structural, Debug)]
pub enum GameLayer {
    Default,
    Player,
    Interactable,
    Enemy,
}

impl GameLayer {
    /// The layer's bit in a layer mask.
    pub open spec fn spec_bit(self) -> u32 {
        match self {
            GameLayer::Default => 1,
            GameLayer::Player => 2,
            GameLayer::Interactable => 4,
            GameLayer::Enemy => 8,
        }
    }

    /// The layer's bit in a layer mask: `1 << n` for the `n`-th layer.
    pub fn to_bits(self) -> (bits: u32)
        ensures
            bits == self.spec_bit(),
    {
        match self {
            GameLayer::Default => 1,
            GameLayer::Player => 2,
            GameLayer::Interactable => 4,
            GameLayer::Enemy => 8,
        }
    }
}

/// Whether `mask` holds `layer`.
pub open spec fn mask_has(mask: u32, layer: GameLayer) -> bool {
    (mask & layer.spec_bit()) != 0
}

/// Whether `mask` holds no bits beyond those of the game's layers.
pub open spec fn mask_in_range(mask: u32) -> bool {
    mask < 16
}

proof fn lemma_add_bit(m: u32, c: u32, b: u32)
    by (bit_vector)
    requires
        m < 16,
        c == 1 || c == 2 || c == 4 || c == 8,
        b == 1 || b == 2 || b == 4 || b == 8,
    ensures
        ((m | c) & b) != 0 <==> ((m & b) != 0 || c == b),
        (m | c) < 16,
{
}

proof fn lemma_empty_mask(b: u32)
    by (bit_vector)
    requires
        b == 1 || b == 2 || b == 4 || b == 8,
    ensures
        (0u32 & b) == 0,
{
}

/// Whether `layer` is among the first `n` entries of `layers`.
pub open spec fn listed_before(layers: Seq<GameLayer>, n: int, layer: GameLayer) -> bool {
    exists|k: int| 0 <= k < n && #[trigger] layers[k] == layer
}

/// The mask that holds exactly the given layers.
pub fn layer_mask(layers: &[GameLayer]) -> (mask: u32)
    ensures
        mask_in_range(mask),
        forall|l: GameLayer| #[trigger] mask_has(mask, l) <==> layers@.contains(l),
{
    let mut mask: u32 = 0;
    proof {
        assert forall|l: GameLayer| #[trigger] mask_has(mask, l) <==> listed_before(layers@, 0, l) by {
            lemma_empty_mask(l.spec_bit());
        }
    }
    for i in 0..layers.len()
        invariant
            mask_in_range(mask),
            forall|l: GameLayer| #[trigger] mask_has(mask, l) <==> listed_before(layers@, i as int, l),
    {
        let bit = layers[i].to_bits();
        let ghost old_mask = mask;
        proof {
            assert forall|l: GameLayer|
                #[trigger] mask_has(old_mask | bit, l) <==> listed_before(layers@, i + 1, l) by {
                lemma_add_bit(old_mask, bit, l.spec_bit());
                assert(mask_has(old_mask, l) <==> listed_before(layers@, i as int, l));
                assert(bit == l.spec_bit() <==> layers@[i as int] == l) by {
                    match l {
                        GameLayer::Default => {},
                        GameLayer::Player => {},
                        GameLayer::Interactable => {},
                        GameLayer::Enemy => {},
                    }
                }
                if l == layers@[i as int] {
                    assert(listed_before(layers@, i + 1, l));
                }
                if listed_before(layers@, i + 1, l) && l != layers@[i as int] {
                    let k = choose|k: int| 0 <= k < i + 1 && #[trigger] layers@[k] == l;
                    assert(listed_before(layers@, i as int, l));
                }
                if listed_before(layers@, i as int, l) {
                    let k = choose|k: int| 0 <= k < i && #[trigger] layers@[k] == l;
                    assert(listed_before(layers@, i + 1, l));
                }
            }
            lemma_add_bit(old_mask, bit, 1);
        }
        mask = mask | bit;
    }
    proof {
        assert forall|l: GameLayer| #[trigger] mask_has(mask, l) <==> layers@.contains(l) by {
            if layers@.contains(l) {
                let k = choose|k: int| 0 <= k < layers@.len() && #[trigger] layers@[k] == l;
                assert(listed_before(layers@, layers@.len() as int, l));
            }
        }
    }
    mask
}

/// The layers a body belongs to and the layers it collides with, as masks.
#[derive(Clone, Copy, PartialEq, Eq, Structural, Debug)]
pub struct LayerConfig {
    pub memberships: u32,
    pub filters: u32,
}

impl LayerConfig {
    /// A body in the `memberships` layers that collides with the `filters` layers.
    pub fn new(memberships: &[GameLayer], filters: &[GameLayer]) -> (config: LayerConfig)
        ensures
            mask_in_range(config.memberships),
            mask_in_range(config.filters),
            forall|l: GameLayer| #[trigger]
                mask_has(config.memberships, l) <==> memberships@.contains(l),
            forall|l: GameLayer| #[trigger] mask_has(config.filters, l) <==> filters@.contains(l),
    {
        LayerConfig { memberships: layer_mask(memberships), filters: layer_mask(filters) }
    }
}

/// Whether bodies with layers `a` and `b` collide: each must belong to a layer
/// that the other one collides with.
pub open spec fn spec_layers_interact(a: LayerConfig, b: LayerConfig) -> bool {
    (a.memberships & b.filters) != 0 && (b.memberships & a.filters) != 0
}

/// avian2d's `CollisionLayers::interacts_with`, on the layer configurations built
/// by `CollisionLayers::from_bits` from the two pairs of masks. Its contract says
/// what the crate's source computes: both `memberships & other.filters` and
/// `other.memberships & filters` are not empty.
#[verifier::external_body]
fn avian_interacts_with(
    memberships: u32,
    filters: u32,
    other_memberships: u32,
    other_filters: u32,
) -> (interact: bool)
    ensures
        interact == ((memberships & other_filters) != 0 && (other_memberships & filters) != 0),
{
    avian2d::prelude::CollisionLayers::from_bits(memberships, filters).interacts_with(
        avian2d::prelude::CollisionLayers::from_bits(other_memberships, other_filters),
    )
}

proof fn lemma_shared_bit(m: u32, f: u32)
    by (bit_vector)
    requires
        m < 16,
        f < 16,
    ensures
        (m & f) != 0 <==> (((m & 1) != 0 && (f & 1) != 0) || ((m & 2) != 0 && (f & 2) != 0) || (
        (m & 4) != 0 && (f & 4) != 0) || ((m & 8) != 0 && (f & 8) != 0)),
{
}

/// Whether `a` belongs to some layer that `b` collides with.
pub open spec fn shares_layer(memberships: u32, filters: u32) -> bool {
    exists|l: GameLayer| #[trigger] mask_has(memberships, l) && mask_has(filters, l)
}

proof fn lemma_shares_layer(m: u32, f: u32)
    requires
        mask_in_range(m),
        mask_in_range(f),
    ensures
        ((m & f) != 0) == shares_layer(m, f),
{
    lemma_shared_bit(m, f);
    if (m & f) != 0 {
        if (m & 1) != 0 && (f & 1) != 0 {
            assert(mask_has(m, GameLayer::Default) && mask_has(f, GameLayer::Default));
        } else if (m & 2) != 0 && (f & 2) != 0 {
            assert(mask_has(m, GameLayer::Player) && mask_has(f, GameLayer::Player));
        } else if (m & 4) != 0 && (f & 4) != 0 {
            assert(mask_has(m, GameLayer::Interactable) && mask_has(f, GameLayer::Interactable));
        } else {
            assert(mask_has(m, GameLayer::Enemy) && mask_has(f, GameLayer::Enemy));
        }
    }
}

/// Whether two bodies with the layers `a` and `b` collide (as avian2d decides it).
pub fn layers_interact(a: LayerConfig, b: LayerConfig) -> (interact: bool)
    ensures
        interact == spec_layers_interact(a, b),
        (mask_in_range(a.memberships) && mask_in_range(a.filters) && mask_in_range(b.memberships)
            && mask_in_range(b.filters)) ==> (interact <==> (shares_layer(
            a.memberships,
            b.filters,
        ) && shares_layer(b.memberships, a.filters))),
{
    let interact = avian_interacts_with(a.memberships, a.filters, b.memberships, b.filters);
    proof {
        if mask_in_range(a.memberships) && mask_in_range(a.filters) && mask_in_range(b.memberships)
            && mask_in_range(b.filters) {
            lemma_shares_layer(a.memberships, b.filters);
            lemma_shares_layer(b.memberships, a.filters);
        }
    }
    interact
}

/// The kinds of bodies that the game gives collision layers.
#[derive(Clone, Copy, PartialEq, Eq, Structural, Debug)]
pub enum BodyKind {
    Player,
    Enemy,
    Chest,
    Coin,
    Door,
    Light,
    /// The static colliders made for the tile layers of a Tiled map.
    Terrain,
}

impl BodyKind {
    /// The layers a body of this kind belongs to.
    pub open spec fn spec_memberships(self) -> Seq<GameLayer> {
        match self {
            BodyKind::Player => seq![GameLayer::Player],
            BodyKind::Enemy => seq![GameLayer::Enemy],
            BodyKind::Chest | BodyKind::Coin | BodyKind::Light => seq![GameLayer::Interactable],
            BodyKind::Door => seq![GameLayer::Default, GameLayer::Interactable],
            BodyKind::Terrain => seq![GameLayer::Default],
        }
    }

    /// The layers a body of this kind collides with.
    pub open spec fn spec_filters(self) -> Seq<GameLayer> {
        match self {
            BodyKind::Player => seq![GameLayer::Default, GameLayer::Interactable],
            BodyKind::Enemy => seq![
                GameLayer::Default,
                GameLayer::Player,
                GameLayer::Interactable,
                GameLayer::Enemy,
            ],
            BodyKind::Chest | BodyKind::Coin | BodyKind::Light => seq![GameLayer::Player],
            BodyKind::Door | BodyKind::Terrain => seq![GameLayer::Player, GameLayer::Enemy],
        }
    }

    /// The collision layers given to a body of this kind.
    pub fn collision_layers(self) -> (config: LayerConfig)
        ensures
            mask_in_range(config.memberships),
            mask_in_range(config.filters),
            forall|l: GameLayer| #[trigger]
                mask_has(config.memberships, l) <==> self.spec_memberships().contains(l),
            forall|l: GameLayer| #[trigger]
                mask_has(config.filters, l) <==> self.spec_filters().contains(l),
    {
        match self {
            BodyKind::Player => {
                let m = [GameLayer::Player];
                let f = [GameLayer::Default, GameLayer::Interactable];
                assert(m@ =~= self.spec_memberships());
                assert(f@ =~= self.spec_filters());
                LayerConfig::new(&m, &f)
            },
            BodyKind::Enemy => {
                let m = [GameLayer::Enemy];
                let f = [
                    GameLayer::Default,
                    GameLayer::Player,
                    GameLayer::Interactable,
                    GameLayer::Enemy,
                ];
                assert(m@ =~= self.spec_memberships());
                assert(f@ =~= self.spec_filters());
                LayerConfig::new(&m, &f)
            },
            BodyKind::Chest | BodyKind::Coin | BodyKind::Light => {
                let m = [GameLayer::Interactable];
                let f = [GameLayer::Player];
                assert(m@ =~= self.spec_memberships());
                assert(f@ =~= self.spec_filters());
                LayerConfig::new(&m, &f)
            },
            BodyKind::Door => {
                let m = [GameLayer::Default, GameLayer::Interactable];
                let f = [GameLayer::Player, GameLayer::Enemy];
                assert(m@ =~= self.spec_memberships());
                assert(f@ =~= self.spec_filters());
                LayerConfig::new(&m, &f)
            },
            BodyKind::Terrain => {
                let m = [GameLayer::Default];
                let f = [GameLayer::Player, GameLayer::Enemy];
                assert(m@ =~= self.spec_memberships());
                assert(f@ =~= self.spec_filters());
                LayerConfig::new(&m, &f)
            },
        }
    }
}

} // verus!
