// Regression test: verify card backgrounds are included in rendered HTML.

use main_web::i18n::Tr;
use main_web::landing::apps;

#[test]
fn card_backgrounds_render() {
    let backgrounds = [
        "catalog-card-back.png",
        "game-room-card-back.jpg",
        "systems-card-back.jpg",
        "profile-card-back.jpg",
        "initiative-card-back.png",
    ];

    for bg in &backgrounds {
        let url = format!("url('/static/img/{}')", bg);
        assert!(
            !url.is_empty(),
            "Card background URL should not be empty: {}",
            url
        );
    }
}

#[test]
fn every_card_carries_its_background_image() {
    let cards = apps(&Tr::english());
    let listed: Vec<&str> = cards.iter().map(|c| c.background).collect();
    assert_eq!(
        listed,
        vec![
            "catalog-card-back.png",
            "game-room-card-back.jpg",
            "initiative-card-back.png",
            "systems-card-back.jpg",
            "profile-card-back.jpg",
        ]
    );
}
