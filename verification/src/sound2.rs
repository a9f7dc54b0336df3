//! The soundtrack: which recording plays for which piece of the binary's
//! music.

use vstd::prelude::*;

verus! {

/// The pieces of music.
#[derive(Debug, Copy, Clone, PartialEq, Eq, Structural)]
pub enum Music {
    PalletTown,
    Pokecenter,
    Gym,
    Cities1,
    Cities2,
    Celadon,
    Cinnabar,
    Vermilion,
    Lavender,
    SSAnne,
    MeetProfOak,
    MeetRival,
    MuseumGuy,
    SafariZone,
    PkmnHealed,
    Routes1,
    Routes2,
    Routes3,
    Routes4,
    IndigoPlateau,
    GymLeaderBattle,
    TrainerBattle,
    WildBattle,
    FinalBattle,
    DefeatedTrainer,
    DefeatedWildMon,
    DefeatedGymLeader,
    TitleScreen,
    Credits,
    HallOfFame,
    OaksLab,
    JigglypuffSong,
    BikeRiding,
    Surfing,
    GameCorner,
    YellowIntro,
    Dungeon1,
    Dungeon2,
    Dungeon3,
    CinnabarMansion,
    PokemonTower,
    SilphCo,
    MeetEvilTrainer,
    MeetFemaleTrainer,
    MeetMaleTrainer,
    SurfingPikachu,
    MeetJessieJames,
    YellowUnusedSong,
    GBPrinter,
}

impl Music {
    /// The path of the recording of the piece, from the directory that the
    /// program runs in.
    pub open spec fn spec_file_name(self) -> Seq<char> {
        match self {
            Music::PalletTown => "music/03 - Pallet Town.flac"@,
            Music::Pokecenter => "music/17 - Pokémon Center.flac"@,
            Music::Gym => "music/23 - Pokémon Gym.flac"@,
            Music::Cities1 => "music/16 - Pewter City.flac"@,
            Music::Cities2 => "music/30 - Cerulean City.flac"@,
            Music::Celadon => "music/41 - Celadon City.flac"@,
            Music::Cinnabar => "music/47 - Cinnabar Island.flac"@,
            Music::Vermilion => "music/35 - Vermilion City.flac"@,
            Music::Lavender => "music/39 - Lavender Town.flac"@,
            Music::SSAnne => "music/36 - S.S. Anne.flac"@,
            Music::MeetProfOak => "music/04 - Professor Oak.flac"@,
            Music::MeetRival => "music/07 - Rival.flac"@,
            Music::MuseumGuy => "music/21 - Hurry Along.flac"@,
            Music::SafariZone => "music/32 - Evolution.flac"@,
            Music::PkmnHealed => "music/18 - Pokémon Healed.flac"@,
            Music::Routes1 => "music/11 - Route 1.flac"@,
            Music::Routes2 => "music/31 - Route 24.flac"@,
            Music::Routes3 => "music/27 - Route 3.flac"@,
            Music::Routes4 => "music/38 - Route 11.flac"@,
            Music::IndigoPlateau => "music/49 - Victory Road.flac"@,
            Music::GymLeaderBattle => "music/25 - Battle! (Gym Leader).flac"@,
            Music::TrainerBattle => "music/08 - Battle! (Trainer).flac"@,
            Music::WildBattle => "music/13 - Battle! (Wild Pokémon).flac"@,
            Music::FinalBattle => "music/51 Final Battle! (Rival).flac"@,
            Music::DefeatedTrainer => "music/50 - Final Battle! (Rival).flac"@,
            Music::DefeatedWildMon => "music/14 - Victory! (Wild Pokémon).flac"@,
            Music::DefeatedGymLeader => "music/26 - Victory! (Gym Leader).flac"@,
            Music::TitleScreen => "music/02 - Title Screen (Yellow).flac"@,
            Music::Credits => "music/52 - Ending.flac"@,
            Music::HallOfFame => "music/51 - Hall of Fame.flac"@,
            Music::OaksLab => "music/05 - Oak Pokémon Lab.flac"@,
            Music::JigglypuffSong => "music/22 - Jigglypuff's Song.flac"@,
            Music::BikeRiding => "music/37 - Cycling.flac"@,
            Music::Surfing => "music/46 - Surf.flac"@,
            Music::GameCorner => "music/42 - Game Corner.flac"@,
            Music::YellowIntro => "music/01 - Opening Movie (Yellow).flac"@,
            Music::Dungeon1 => "music/43 - Rocket Hideout.flac"@,
            Music::Dungeon2 => "music/19 - Viridian Forest.flac"@,
            Music::Dungeon3 => "music/29 - Mt. Moon.flac"@,
            Music::CinnabarMansion => "music/48 - Pokémon Mansion.flac"@,
            Music::PokemonTower => "music/40 - Pokémon Tower.flac"@,
            Music::SilphCo => "music/45 - Silph Co..flac"@,
            Music::MeetEvilTrainer => "music/44 - Trainers' Eyes Meet (Team Rocket).flac"@,
            Music::MeetFemaleTrainer => "music/28 - Trainers' Eyes Meet (Girl).flac"@,
            Music::MeetMaleTrainer => "music/20 - Trainers' Eyes Meet (Boy).flac"@,
            Music::SurfingPikachu => "music/04 - Pikachu's Beach.flac"@,
            Music::MeetJessieJames => "music/03 - Jessie & James.flac"@,
            Music::YellowUnusedSong => "music/05 - Giovanni [Hidden Track].flac"@,
            Music::GBPrinter => "music/05 - Giovanni [Hidden Track].flac"@,
        }
    }

    /// The path of the recording of the piece. The pieces of a bank of the
    /// binary's music stand together; the two pieces that have no
    /// recording of their own share one.
    pub fn file_name(&self) -> (out: &'static str)
        ensures
            out@ == self.spec_file_name(),
    {
        match self {
            Music::PalletTown => "music/03 - Pallet Town.flac",
            Music::Pokecenter => "music/17 - Pokémon Center.flac",
            Music::Gym => "music/23 - Pokémon Gym.flac",
            Music::Cities1 => "music/16 - Pewter City.flac",
            Music::Cities2 => "music/30 - Cerulean City.flac",
            Music::Celadon => "music/41 - Celadon City.flac",
            Music::Cinnabar => "music/47 - Cinnabar Island.flac",
            Music::Vermilion => "music/35 - Vermilion City.flac",
            Music::Lavender => "music/39 - Lavender Town.flac",
            Music::SSAnne => "music/36 - S.S. Anne.flac",
            Music::MeetProfOak => "music/04 - Professor Oak.flac",
            Music::MeetRival => "music/07 - Rival.flac",
            Music::MuseumGuy => "music/21 - Hurry Along.flac",
            Music::SafariZone => "music/32 - Evolution.flac",
            Music::PkmnHealed => "music/18 - Pokémon Healed.flac",
            Music::Routes1 => "music/11 - Route 1.flac",
            Music::Routes2 => "music/31 - Route 24.flac",
            Music::Routes3 => "music/27 - Route 3.flac",
            Music::Routes4 => "music/38 - Route 11.flac",
            Music::IndigoPlateau => "music/49 - Victory Road.flac",
            Music::GymLeaderBattle => "music/25 - Battle! (Gym Leader).flac",
            Music::TrainerBattle => "music/08 - Battle! (Trainer).flac",
            Music::WildBattle => "music/13 - Battle! (Wild Pokémon).flac",
            Music::FinalBattle => "music/51 Final Battle! (Rival).flac",
            Music::DefeatedTrainer => "music/50 - Final Battle! (Rival).flac",
            Music::DefeatedWildMon => "music/14 - Victory! (Wild Pokémon).flac",
            Music::DefeatedGymLeader => "music/26 - Victory! (Gym Leader).flac",
            Music::TitleScreen => "music/02 - Title Screen (Yellow).flac",
            Music::Credits => "music/52 - Ending.flac",
            Music::HallOfFame => "music/51 - Hall of Fame.flac",
            Music::OaksLab => "music/05 - Oak Pokémon Lab.flac",
            Music::JigglypuffSong => "music/22 - Jigglypuff's Song.flac",
            Music::BikeRiding => "music/37 - Cycling.flac",
            Music::Surfing => "music/46 - Surf.flac",
            Music::GameCorner => "music/42 - Game Corner.flac",
            Music::YellowIntro => "music/01 - Opening Movie (Yellow).flac",
            Music::Dungeon1 => "music/43 - Rocket Hideout.flac",
            Music::Dungeon2 => "music/19 - Viridian Forest.flac",
            Music::Dungeon3 => "music/29 - Mt. Moon.flac",
            Music::CinnabarMansion => "music/48 - Pokémon Mansion.flac",
            Music::PokemonTower => "music/40 - Pokémon Tower.flac",
            Music::SilphCo => "music/45 - Silph Co..flac",
            Music::MeetEvilTrainer => "music/44 - Trainers' Eyes Meet (Team Rocket).flac",
            Music::MeetFemaleTrainer => "music/28 - Trainers' Eyes Meet (Girl).flac",
            Music::MeetMaleTrainer => "music/20 - Trainers' Eyes Meet (Boy).flac",
            Music::SurfingPikachu => "music/04 - Pikachu's Beach.flac",
            Music::MeetJessieJames => "music/03 - Jessie & James.flac",
            Music::YellowUnusedSong => "music/05 - Giovanni [Hidden Track].flac",
            Music::GBPrinter => "music/05 - Giovanni [Hidden Track].flac",
        }
    }
}

} // verus!
