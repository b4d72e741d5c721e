//! The roster of pets that a world starts with.

use vstd::prelude::*;
use crate::gameplay::player::components::{BasicEmotions, PlayerData};

verus! {

/// The mathematical content of a seed record.
pub struct PlayerDataView {
    pub name: Seq<char>,
    pub attack_dmg: i32,
    pub speed: u32,
    pub player_id: Seq<char>,
    pub emotion: BasicEmotions,
}

impl View for PlayerData {
    type V = PlayerDataView;

    open spec fn view(&self) -> PlayerDataView {
        PlayerDataView {
            name: self.name@,
            attack_dmg: self.attack_dmg,
            speed: self.speed,
            player_id: self.player_id@,
            emotion: self.emotion,
        }
    }
}

/// The seven pets of the roster, in the order in which they are placed.
/// Speeds are in sub-units.
pub open spec fn player_data_spec() -> Seq<PlayerDataView> {
    seq![
        PlayerDataView {
            name: "Chester"@,
            attack_dmg: 5,
            speed: 4000,
            player_id: "1"@,
            emotion: BasicEmotions::Happiness,
        },
        PlayerDataView {
            name: "Jakobo"@,
            attack_dmg: 5,
            speed: 3000,
            player_id: "2"@,
            emotion: BasicEmotions::Hate,
        },
        PlayerDataView {
            name: "Marcy"@,
            attack_dmg: 5,
            speed: 3500,
            player_id: "3"@,
            emotion: BasicEmotions::Disgust,
        },
        PlayerDataView {
            name: "Kitty"@,
            attack_dmg: 10,
            speed: 2500,
            player_id: "4"@,
            emotion: BasicEmotions::Fear,
        },
        PlayerDataView {
            name: "Nimbus"@,
            attack_dmg: 3,
            speed: 2000,
            player_id: "5"@,
            emotion: BasicEmotions::Hate,
        },
        PlayerDataView {
            name: "Andrea"@,
            attack_dmg: 2,
            speed: 4000,
            player_id: "6"@,
            emotion: BasicEmotions::Sadness,
        },
        PlayerDataView {
            name: "Salem"@,
            attack_dmg: 20,
            speed: 5000,
            player_id: "7"@,
            emotion: BasicEmotions::Excitement,
        },
    ]
}

/// Builds the roster of pets.
pub fn get_player_data() -> (roster: Vec<PlayerData>)
    ensures
        roster@.len() == player_data_spec().len() == 7,
        forall|k: int| 0 <= k < roster@.len() ==> (#[trigger] roster@[k])@ == player_data_spec()[k],
{
    let mut roster: Vec<PlayerData> = Vec::new();
    roster.push(
        PlayerData {
            name: "Chester".to_owned(),
            attack_dmg: 5,
            speed: 4000,
            player_id: "1".to_owned(),
            emotion: BasicEmotions::Happiness,
        },
    );
    roster.push(
        PlayerData {
            name: "Jakobo".to_owned(),
            attack_dmg: 5,
            speed: 3000,
            player_id: "2".to_owned(),
            emotion: BasicEmotions::Hate,
        },
    );
    roster.push(
        PlayerData {
            name: "Marcy".to_owned(),
            attack_dmg: 5,
            speed: 3500,
            player_id: "3".to_owned(),
            emotion: BasicEmotions::Disgust,
        },
    );
    roster.push(
        PlayerData {
            name: "Kitty".to_owned(),
            attack_dmg: 10,
            speed: 2500,
            player_id: "4".to_owned(),
            emotion: BasicEmotions::Fear,
        },
    );
    roster.push(
        PlayerData {
            name: "Nimbus".to_owned(),
            attack_dmg: 3,
            speed: 2000,
            player_id: "5".to_owned(),
            emotion: BasicEmotions::Hate,
        },
    );
    roster.push(
        PlayerData {
            name: "Andrea".to_owned(),
            attack_dmg: 2,
            speed: 4000,
            player_id: "6".to_owned(),
            emotion: BasicEmotions::Sadness,
        },
    );
    roster.push(
        PlayerData {
            name: "Salem".to_owned(),
            attack_dmg: 20,
            speed: 5000,
            player_id: "7".to_owned(),
            emotion: BasicEmotions::Excitement,
        },
    );
    roster
}

} // verus!
