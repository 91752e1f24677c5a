//! What the named objects of a Tiled map become.
use vstd::prelude::*;

verus! {

/// What to add to a Tiled object, by the object's name.
#[derive(Clone, Copy, PartialEq, Eq, Structural, Debug)]
pub enum TiledSpawn {
    Player,
    Enemy,
    /// A coin worth `value`.
    Coin { value: u32 },
    /// A chest holding `gold`.
    Chest { gold: u32 },
}

/// The spawn for an object named `name`: `Player`, `Enemy`, `Coin` (worth 1)
/// or `Chest` (holding 50 gold); objects with other names are left alone.
pub open spec fn spec_spawn_for_name(name: Seq<char>) -> Option<TiledSpawn> {
    if name == "Player"@ {
        Some(TiledSpawn::Player)
    } else if name == "Enemy"@ {
        Some(TiledSpawn::Enemy)
    } else if name == "Coin"@ {
        Some(TiledSpawn::Coin { value: 1 })
    } else if name == "Chest"@ {
        Some(TiledSpawn::Chest { gold: 50 })
    } else {
        None
    }
}

fn same_text(a: &str, b: &str) -> (same: bool)
    ensures
        same == (a@ == b@),
{
    let a_owned = a.to_owned();
    let b_owned = b.to_owned();
    a_owned == b_owned
}

/// The spawn for a Tiled object named `name`.
pub fn spawn_for_name(name: &str) -> (spawn: Option<TiledSpawn>)
    ensures
        spawn == spec_spawn_for_name(name@),
        (spawn == Some(TiledSpawn::Player)) <==> name@ == "Player"@,
        (spawn == Some(TiledSpawn::Enemy)) <==> name@ == "Enemy"@,
        (spawn == Some(TiledSpawn::Coin { value: 1 })) <==> name@ == "Coin"@,
        (spawn == Some(TiledSpawn::Chest { gold: 50 })) <==> name@ == "Chest"@,
        spawn is None <==> (name@ != "Player"@ && name@ != "Enemy"@ && name@ != "Coin"@ && name@
            != "Chest"@),
{
    proof {
        lemma_spawn_names(name@);
    }
    if same_text(name, "Player") {
        Some(TiledSpawn::Player)
    } else if same_text(name, "Enemy") {
        Some(TiledSpawn::Enemy)
    } else if same_text(name, "Coin") {
        Some(TiledSpawn::Coin { value: 1 })
    } else if same_text(name, "Chest") {
        Some(TiledSpawn::Chest { gold: 50 })
    } else {
        None
    }
}

/// Exactly the four names `Player`, `Enemy`, `Coin` and `Chest` spawn
/// something: the player, an enemy, a coin worth 1, a chest holding 50 gold.
pub proof fn lemma_spawn_names(name: Seq<char>)
    ensures
        (spec_spawn_for_name(name) == Some(TiledSpawn::Player)) <==> name == "Player"@,
        (spec_spawn_for_name(name) == Some(TiledSpawn::Enemy)) <==> name == "Enemy"@,
        (spec_spawn_for_name(name) == Some(TiledSpawn::Coin { value: 1 })) <==> name == "Coin"@,
        (spec_spawn_for_name(name) == Some(TiledSpawn::Chest { gold: 50 })) <==> name
            == "Chest"@,
        spec_spawn_for_name(name) is None <==> (name != "Player"@ && name != "Enemy"@ && name
            != "Coin"@ && name != "Chest"@),
{
    reveal_strlit("Player");
    reveal_strlit("Enemy");
    reveal_strlit("Coin");
    reveal_strlit("Chest");
    assert("Player"@.len() == 6);
    assert("Enemy"@.len() == 5);
    assert("Coin"@.len() == 4);
    assert("Chest"@.len() == 5);
    assert("Enemy"@[0] == 'E');
    assert("Chest"@[0] == 'C');
    assert("Player"@ != "Enemy"@);
    assert("Player"@ != "Coin"@);
    assert("Player"@ != "Chest"@);
    assert("Enemy"@ != "Coin"@);
    assert("Enemy"@ != "Chest"@);
    assert("Coin"@ != "Chest"@);
}

} // verus!
