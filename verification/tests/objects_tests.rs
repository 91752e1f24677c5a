use game_logic::interactables::{contact_interaction, detect_interactions, Chest, Contact, Door, Interaction, Light};
use game_logic::render::ZLayer;
use game_logic::tiled::{spawn_for_name, TiledSpawn};
use game_logic::wallet::{gold_popup_text, PlayerWallet};

#[test]
fn default_chest_is_closed_with_ten_gold() {
    assert_eq!(Chest::default(), Chest { is_open: false, gold_content: 10 });
    assert_eq!(Chest::with_gold(50), Chest { is_open: false, gold_content: 50 });
}

#[test]
fn chest_pays_once() {
    let mut chest = Chest::with_gold(50);
    assert_eq!(chest.open(), Some(50));
    assert!(chest.is_open);
    assert_eq!(chest.open(), None);
    assert_eq!(chest, Chest { is_open: true, gold_content: 50 });
}

#[test]
fn doors_and_lights_toggle() {
    let mut door = Door::default();
    assert!(!door.is_open);
    assert!(door.toggle());
    assert!(!door.toggle());
    assert_eq!(door, Door::default());

    let mut light = Light::default();
    assert!(!light.is_on);
    assert!(light.toggle());
    assert!(!light.toggle());
    assert_eq!(light, Light::default());
}

fn contact(c1: u64, c2: u64, flags: [bool; 4]) -> Contact {
    Contact {
        collider1: c1,
        collider2: c2,
        collider1_interactor: flags[0],
        collider1_interactable: flags[1],
        collider2_interactor: flags[2],
        collider2_interactable: flags[3],
    }
}

#[test]
fn contact_roles() {
    assert_eq!(
        contact_interaction(contact(1, 2, [true, false, false, true])),
        Some(Interaction { interactable: 2, interactor: 1 })
    );
    assert_eq!(
        contact_interaction(contact(1, 2, [false, true, true, false])),
        Some(Interaction { interactable: 1, interactor: 2 })
    );
    assert_eq!(contact_interaction(contact(1, 2, [true, false, true, false])), None);
    assert_eq!(contact_interaction(contact(1, 2, [false, false, false, false])), None);
    // When both orders fit, the first collider is the interactor.
    assert_eq!(
        contact_interaction(contact(1, 2, [true, true, true, true])),
        Some(Interaction { interactable: 2, interactor: 1 })
    );
}

#[test]
fn interactions_of_a_frame() {
    let contacts = vec![
        contact(7, 3, [false, true, true, false]),
        contact(4, 5, [false, false, false, false]),
        contact(1, 9, [true, false, false, true]),
    ];
    assert_eq!(
        detect_interactions(&contacts),
        vec![
            Interaction { interactable: 7, interactor: 3 },
            Interaction { interactable: 9, interactor: 1 },
        ]
    );
    assert!(detect_interactions(&Vec::new()).is_empty());
}

#[test]
fn wallet_counts_gold() {
    let mut wallet = PlayerWallet::default();
    assert_eq!(wallet.coins, 0);
    assert_eq!(wallet.label(), "Coins: 0");
    wallet.add_gold(50);
    wallet.add_gold(1);
    assert_eq!(wallet.coins, 51);
    assert_eq!(wallet.label(), "Coins: 51");
    wallet.add_gold(u32::MAX - 51);
    assert_eq!(wallet.label(), "Coins: 4294967295");
}

#[test]
fn gold_popup() {
    assert_eq!(gold_popup_text(50), "+50 Gold");
    assert_eq!(gold_popup_text(0), "+0 Gold");
    assert_eq!(gold_popup_text(1000), "+1000 Gold");
}

#[test]
fn tiled_names() {
    assert_eq!(spawn_for_name("Player"), Some(TiledSpawn::Player));
    assert_eq!(spawn_for_name("Enemy"), Some(TiledSpawn::Enemy));
    assert_eq!(spawn_for_name("Coin"), Some(TiledSpawn::Coin { value: 1 }));
    assert_eq!(spawn_for_name("Chest"), Some(TiledSpawn::Chest { gold: 50 }));
    assert_eq!(spawn_for_name("chest"), None);
    assert_eq!(spawn_for_name(""), None);
    assert_eq!(spawn_for_name("Players"), None);
}

#[test]
fn z_layers_stack_in_order() {
    assert_eq!(ZLayer::Background.depth(), 0);
    assert_eq!(ZLayer::Shadows.depth(), 1);
    assert_eq!(ZLayer::Entities.depth(), 2);
    assert_eq!(ZLayer::Ui.depth(), 100);
}
