//! The entity graph of a simulated football world: continents, countries,
//! leagues, teams, players and match results.

use crate::date::Date;
use crate::match_storage::MatchStorage;
use vstd::prelude::*;

verus! {

/// How a person currently behaves; for a team, the mood of its majority.
#[derive(Debug, Clone, Copy, PartialEq, Eq, Structural)]
pub enum Behaviour {
    Poor,
    Normal,
    Good,
}

impl Behaviour {
    /// The display label of this classification.
    pub open spec fn spec_as_str(&self) -> &'static str {
        match self {
            Behaviour::Poor => "Poor",
            Behaviour::Normal => "Normal",
            Behaviour::Good => "Good",
        }
    }

    /// The display label of this classification.
    #[verifier::when_used_as_spec(spec_as_str)]
    pub fn as_str(&self) -> (label: &'static str)
        ensures
            label == self.spec_as_str(),
    {
        match self {
            Behaviour::Poor => "Poor",
            Behaviour::Normal => "Normal",
            Behaviour::Good => "Good",
        }
    }
}

/// A status flag that a player can carry.
#[derive(Debug, Clone, Copy, PartialEq, Eq, Structural)]
pub enum PlayerStatusType {
    /// Absent without permission.
    Abs,
    /// A bid for the player was accepted.
    Bid,
    /// The contract is running out.
    Ctr,
    /// Cup-tied.
    Cup,
    /// Another club enquired.
    Enq,
    /// Counts as a foreign player.
    Fgn,
    /// Concerned about the future.
    Fut,
    /// On holiday.
    Hol,
    /// Ineligible.
    Ine,
    /// Injured.
    Inj,
    /// Away on international duty.
    Int,
    /// Lacks match fitness.
    Lmp,
    /// On loan.
    Loa,
    /// Learning a new position.
    Lrn,
    /// Transfer listed.
    Lst,
    /// Asked for a transfer.
    Req,
    /// Retiring.
    Ret,
    /// Needs a rest.
    Rst,
    /// Being scouted.
    Sct,
    /// Has slight concerns.
    Slt,
    /// Suspended.
    Sus,
    /// In transfer talks.
    Trn,
    /// Unfit.
    Unf,
    /// Unhappy.
    Unh,
    /// Not registered.
    Unr,
    /// Withdrawn from international duty.
    Wdn,
    /// Wanted by another club.
    Wnt,
    /// One yellow card from a suspension.
    Yel,
}

/// The standing of a player in the squad, as agreed in the contract.
#[derive(Debug, Clone, Copy, PartialEq, Eq, Structural)]
pub enum PlayerSquadStatus {
    Invalid,
    NotYetSet,
    KeyPlayer,
    FirstTeamRegular,
    FirstTeamSquadRotation,
    MainBackupPlayer,
    HotProspectForTheFuture,
    DecentYoungster,
    NotNeeded,
    SquadStatusCount,
}

/// A place on the pitch.
#[derive(Debug, Clone, Copy, PartialEq, Eq, Structural)]
pub enum PlayerPositionType {
    Goalkeeper,
    Sweeper,
    DefenderLeft,
    DefenderCenter,
    DefenderRight,
    DefensiveMidfielder,
    WingbackLeft,
    WingbackRight,
    MidfielderLeft,
    MidfielderCenter,
    MidfielderRight,
    AttackingMidfielderLeft,
    AttackingMidfielderCenter,
    AttackingMidfielderRight,
    Striker,
}

impl PlayerPositionType {
    /// The short name of the position.
    pub open spec fn spec_get_short_name(&self) -> &'static str {
        match self {
            PlayerPositionType::Goalkeeper => "GK",
            PlayerPositionType::Sweeper => "SW",
            PlayerPositionType::DefenderLeft => "DL",
            PlayerPositionType::DefenderCenter => "DC",
            PlayerPositionType::DefenderRight => "DR",
            PlayerPositionType::DefensiveMidfielder => "DM",
            PlayerPositionType::WingbackLeft => "WL",
            PlayerPositionType::WingbackRight => "WR",
            PlayerPositionType::MidfielderLeft => "ML",
            PlayerPositionType::MidfielderCenter => "MC",
            PlayerPositionType::MidfielderRight => "MR",
            PlayerPositionType::AttackingMidfielderLeft => "AML",
            PlayerPositionType::AttackingMidfielderCenter => "AMC",
            PlayerPositionType::AttackingMidfielderRight => "AMR",
            PlayerPositionType::Striker => "ST",
        }
    }

    /// The short name of the position.
    #[verifier::when_used_as_spec(spec_get_short_name)]
    pub fn get_short_name(&self) -> (name: &'static str)
        ensures
            name == self.spec_get_short_name(),
    {
        match self {
            PlayerPositionType::Goalkeeper => "GK",
            PlayerPositionType::Sweeper => "SW",
            PlayerPositionType::DefenderLeft => "DL",
            PlayerPositionType::DefenderCenter => "DC",
            PlayerPositionType::DefenderRight => "DR",
            PlayerPositionType::DefensiveMidfielder => "DM",
            PlayerPositionType::WingbackLeft => "WL",
            PlayerPositionType::WingbackRight => "WR",
            PlayerPositionType::MidfielderLeft => "ML",
            PlayerPositionType::MidfielderCenter => "MC",
            PlayerPositionType::MidfielderRight => "MR",
            PlayerPositionType::AttackingMidfielderLeft => "AML",
            PlayerPositionType::AttackingMidfielderCenter => "AMC",
            PlayerPositionType::AttackingMidfielderRight => "AMR",
            PlayerPositionType::Striker => "ST",
        }
    }
}

/// A formation.
#[derive(Debug, Clone, Copy, PartialEq, Eq, Structural)]
pub enum TacticType {
    T442,
    T433,
    T451,
    T352,
    T4231,
}

impl TacticType {
    /// The formation as it is usually written, such as `4-4-2`.
    pub open spec fn spec_display_name(&self) -> &'static str {
        match self {
            TacticType::T442 => "4-4-2",
            TacticType::T433 => "4-3-3",
            TacticType::T451 => "4-5-1",
            TacticType::T352 => "3-5-2",
            TacticType::T4231 => "4-2-3-1",
        }
    }

    /// The formation as it is usually written, such as `4-4-2`.
    #[verifier::when_used_as_spec(spec_display_name)]
    pub fn display_name(&self) -> (name: &'static str)
        ensures
            name == self.spec_display_name(),
    {
        match self {
            TacticType::T442 => "4-4-2",
            TacticType::T433 => "4-3-3",
            TacticType::T451 => "4-5-1",
            TacticType::T352 => "3-5-2",
            TacticType::T4231 => "4-2-3-1",
        }
    }

    /// The name of the variant, such as `T442`.
    pub open spec fn spec_variant_name(&self) -> &'static str {
        match self {
            TacticType::T442 => "T442",
            TacticType::T433 => "T433",
            TacticType::T451 => "T451",
            TacticType::T352 => "T352",
            TacticType::T4231 => "T4231",
        }
    }

    /// The name of the variant, such as `T442`.
    #[verifier::when_used_as_spec(spec_variant_name)]
    pub fn variant_name(&self) -> (name: &'static str)
        ensures
            name == self.spec_variant_name(),
    {
        match self {
            TacticType::T442 => "T442",
            TacticType::T433 => "T433",
            TacticType::T451 => "T451",
            TacticType::T352 => "T352",
            TacticType::T4231 => "T4231",
        }
    }
}

/// The tactical configuration of a team.
#[derive(Debug, Clone, Copy, PartialEq, Eq, Structural)]
pub struct Tactics {
    pub tactic_type: TacticType,
}

/// The first and last name of a person.
#[derive(Debug, Clone, PartialEq, Eq)]
pub struct FullName {
    pub first_name: String,
    pub last_name: String,
}

/// Traits of character. Each is a share of the whole, held in millionths:
/// 0 is none of it, 1 000 000 all of it.
#[derive(Debug, Clone, Copy, PartialEq, Eq, Structural)]
pub struct PersonAttributes {
    pub ambition: i32,
    pub loyalty: i32,
    pub professionalism: i32,
    pub temperament: i32,
}

/// What a player did this season. The average rating is held in millionths
/// of a rating point.
#[derive(Debug, Clone, Copy, PartialEq, Eq, Structural)]
pub struct PlayerStatistics {
    pub average_rating: u32,
    pub goals: u16,
    pub assists: u16,
    pub played: u16,
}

/// The physical state of a player. Condition and current ability are shares
/// of the whole, held in millionths.
#[derive(Debug, Clone, Copy, PartialEq, Eq, Structural)]
pub struct PlayerAttributes {
    pub condition: i32,
    pub current_ability: i32,
    pub is_injured: bool,
    pub is_banned: bool,
    pub is_ready_for_match: bool,
}

/// The contract between a player and a club.
#[derive(Debug, Clone, Copy, PartialEq, Eq)]
pub struct PlayerClubContract {
    pub salary: u32,
    pub expiration: Date,
    pub squad_status: PlayerSquadStatus,
    pub is_transfer_listed: bool,
}

/// A player.
#[derive(Debug, Clone, PartialEq, Eq)]
pub struct Player {
    pub id: u32,
    pub full_name: FullName,
    pub birth_date: Date,
    /// The position the player is best at.
    pub position: PlayerPositionType,
    /// The other positions the player can take, best first.
    pub other_positions: Vec<PlayerPositionType>,
    pub attributes: PersonAttributes,
    pub behaviour: Behaviour,
    pub is_happy: bool,
    pub statistics: PlayerStatistics,
    pub player_attributes: PlayerAttributes,
    pub statuses: Vec<PlayerStatusType>,
    pub contract: Option<PlayerClubContract>,
}

/// How widely a team is known.
#[derive(Debug, Clone, Copy, PartialEq, Eq, Structural)]
pub struct TeamReputation {
    /// The standing in the world, 0 to 10000.
    pub world: u16,
}

/// A team with its roster.
#[derive(Debug, Clone, PartialEq, Eq)]
pub struct Team {
    pub id: u32,
    pub name: String,
    pub slug: String,
    pub league_id: u32,
    pub players: Vec<Player>,
    pub reputation: TeamReputation,
    pub tactics: Option<Tactics>,
    /// What the team pays its players in a week.
    pub week_salary: u32,
}

/// The goals of one side in a match.
#[derive(Debug, Clone, Copy, PartialEq, Eq, Structural)]
pub struct TeamScore {
    pub team_id: u32,
    pub score: u8,
}

impl TeamScore {
    /// The score of the team `team_id`.
    pub fn new_with_score(team_id: u32, score: u8) -> (team_score: TeamScore)
        ensures
            team_score == (TeamScore { team_id, score }),
    {
        TeamScore { team_id, score }
    }

    /// The number of goals.
    pub fn get(&self) -> (goals: u8)
        ensures
            goals == self.score,
    {
        self.score
    }
}

/// One goal of a match.
#[derive(Debug, Clone, Copy, PartialEq, Eq, Structural)]
pub struct GoalDetail {
    pub player_id: u32,
    /// The minute of the match in which the goal fell.
    pub time: u64,
    pub is_auto_goal: bool,
}

/// The score of a match, with its goals in the order in which they fell.
#[derive(Debug, Clone, PartialEq, Eq)]
pub struct Score {
    pub home_team: TeamScore,
    pub away_team: TeamScore,
    pub details: Vec<GoalDetail>,
}

/// The result of one match.
#[derive(Debug, Clone, PartialEq, Eq)]
pub struct MatchResult {
    pub id: String,
    pub league_id: u32,
    pub league_slug: String,
    pub home_team_id: u32,
    pub away_team_id: u32,
    pub score: Score,
}

/// A league with its teams and the results of its matches.
#[derive(Debug, PartialEq, Eq)]
pub struct League {
    pub id: u32,
    pub name: String,
    pub slug: String,
    pub teams: Vec<Team>,
    pub matches: MatchStorage,
}

/// A country with its leagues.
#[derive(Debug, PartialEq, Eq)]
pub struct Country {
    pub id: u32,
    pub name: String,
    pub leagues: Vec<League>,
}

/// A continent with its countries.
#[derive(Debug, PartialEq, Eq)]
pub struct Continent {
    pub id: u32,
    pub name: String,
    pub countries: Vec<Country>,
}

} // verus!
