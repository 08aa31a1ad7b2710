//! The closed enumerations the external API codes as small numeric strings,
//! with their bidirectional mapping tables. Unknown codes map to `None` and
//! are rejected by the decoder, never guessed at.

use vstd::prelude::*;
use crate::numeral::str_eq;

verus! {

broadcast use vstd::string::group_string_axioms;

/// The character content of every code literal the mapping tables use, so
/// that the round-trip laws can tell the codes apart.
proof fn lemma_code_literals()
    ensures
        "0"@.len() == 1 && "0"@[0] == '0',
        "1"@.len() == 1 && "1"@[0] == '1',
        "2"@.len() == 1 && "2"@[0] == '2',
        "3"@.len() == 1 && "3"@[0] == '3',
        "4"@.len() == 1 && "4"@[0] == '4',
        "5"@.len() == 1 && "5"@[0] == '5',
        "6"@.len() == 1 && "6"@[0] == '6',
        "7"@.len() == 1 && "7"@[0] == '7',
        "8"@.len() == 1 && "8"@[0] == '8',
        "9"@.len() == 1 && "9"@[0] == '9',
        "10"@.len() == 2 && "10"@[0] == '1' && "10"@[1] == '0',
        "11"@.len() == 2 && "11"@[0] == '1' && "11"@[1] == '1',
        "-1"@.len() == 2 && "-1"@[0] == '-' && "-1"@[1] == '1',
        "-2"@.len() == 2 && "-2"@[0] == '-' && "-2"@[1] == '2',
{
    reveal_strlit("0");
    reveal_strlit("1");
    reveal_strlit("2");
    reveal_strlit("3");
    reveal_strlit("4");
    reveal_strlit("5");
    reveal_strlit("6");
    reveal_strlit("7");
    reveal_strlit("8");
    reveal_strlit("9");
    reveal_strlit("10");
    reveal_strlit("11");
    reveal_strlit("-1");
    reveal_strlit("-2");
}

/// The approval state of a beatmap.
#[derive(Clone, Copy, Debug, PartialEq, Eq, Structural)]
pub enum Approval {
    Approved,
    Graveyard,
    Loved,
    Pending,
    Qualified,
    Ranked,
    WIP,
}

impl Approval {
    /// The numeric-string code the external API uses for this variant.
    pub open spec fn spec_code(self) -> Seq<char> {
        match self {
            Approval::Approved => "2"@,
            Approval::Graveyard => "-2"@,
            Approval::Loved => "4"@,
            Approval::Pending => "0"@,
            Approval::Qualified => "3"@,
            Approval::Ranked => "1"@,
            Approval::WIP => "-1"@,
        }
    }

    /// Which variant a code denotes, if any.
    pub open spec fn spec_from_code(s: Seq<char>) -> Option<Approval> {
        if s == "2"@ {
            Some(Approval::Approved)
        } else if s == "-2"@ {
            Some(Approval::Graveyard)
        } else if s == "4"@ {
            Some(Approval::Loved)
        } else if s == "0"@ {
            Some(Approval::Pending)
        } else if s == "3"@ {
            Some(Approval::Qualified)
        } else if s == "1"@ {
            Some(Approval::Ranked)
        } else if s == "-1"@ {
            Some(Approval::WIP)
        } else {
            None
        }
    }

    pub fn code(&self) -> (r: &'static str)
        ensures
            r@ == self.spec_code(),
    {
        match self {
            Approval::Approved => "2",
            Approval::Graveyard => "-2",
            Approval::Loved => "4",
            Approval::Pending => "0",
            Approval::Qualified => "3",
            Approval::Ranked => "1",
            Approval::WIP => "-1",
        }
    }

    pub fn from_code(code: &str) -> (r: Option<Approval>)
        ensures
            r == Self::spec_from_code(code@),
    {
        if str_eq(code, "2") {
            Some(Approval::Approved)
        } else if str_eq(code, "-2") {
            Some(Approval::Graveyard)
        } else if str_eq(code, "4") {
            Some(Approval::Loved)
        } else if str_eq(code, "0") {
            Some(Approval::Pending)
        } else if str_eq(code, "3") {
            Some(Approval::Qualified)
        } else if str_eq(code, "1") {
            Some(Approval::Ranked)
        } else if str_eq(code, "-1") {
            Some(Approval::WIP)
        } else {
            None
        }
    }
}

/// Law: the code mapping is bidirectional; every variant's code maps back to
/// that variant.
pub proof fn lemma_approval_codes(v: Approval)
    ensures
        Approval::spec_from_code(v.spec_code()) == Some(v),
{
    lemma_code_literals();
}

/// The musical genre of a beatmap's song.
#[derive(Clone, Copy, Debug, PartialEq, Eq, Structural)]
pub enum Genre {
    Anime,
    Any,
    Electronic,
    HipHop,
    Novelty,
    Other,
    Pop,
    Rock,
    Unspecified,
    VideoGame,
}

impl Genre {
    /// The numeric-string code the external API uses for this variant.
    pub open spec fn spec_code(self) -> Seq<char> {
        match self {
            Genre::Anime => "3"@,
            Genre::Any => "0"@,
            Genre::Electronic => "10"@,
            Genre::HipHop => "9"@,
            Genre::Novelty => "7"@,
            Genre::Other => "6"@,
            Genre::Pop => "5"@,
            Genre::Rock => "4"@,
            Genre::Unspecified => "1"@,
            Genre::VideoGame => "2"@,
        }
    }

    /// Which variant a code denotes, if any.
    pub open spec fn spec_from_code(s: Seq<char>) -> Option<Genre> {
        if s == "3"@ {
            Some(Genre::Anime)
        } else if s == "0"@ {
            Some(Genre::Any)
        } else if s == "10"@ {
            Some(Genre::Electronic)
        } else if s == "9"@ {
            Some(Genre::HipHop)
        } else if s == "7"@ {
            Some(Genre::Novelty)
        } else if s == "6"@ {
            Some(Genre::Other)
        } else if s == "5"@ {
            Some(Genre::Pop)
        } else if s == "4"@ {
            Some(Genre::Rock)
        } else if s == "1"@ {
            Some(Genre::Unspecified)
        } else if s == "2"@ {
            Some(Genre::VideoGame)
        } else {
            None
        }
    }

    pub fn code(&self) -> (r: &'static str)
        ensures
            r@ == self.spec_code(),
    {
        match self {
            Genre::Anime => "3",
            Genre::Any => "0",
            Genre::Electronic => "10",
            Genre::HipHop => "9",
            Genre::Novelty => "7",
            Genre::Other => "6",
            Genre::Pop => "5",
            Genre::Rock => "4",
            Genre::Unspecified => "1",
            Genre::VideoGame => "2",
        }
    }

    pub fn from_code(code: &str) -> (r: Option<Genre>)
        ensures
            r == Self::spec_from_code(code@),
    {
        if str_eq(code, "3") {
            Some(Genre::Anime)
        } else if str_eq(code, "0") {
            Some(Genre::Any)
        } else if str_eq(code, "10") {
            Some(Genre::Electronic)
        } else if str_eq(code, "9") {
            Some(Genre::HipHop)
        } else if str_eq(code, "7") {
            Some(Genre::Novelty)
        } else if str_eq(code, "6") {
            Some(Genre::Other)
        } else if str_eq(code, "5") {
            Some(Genre::Pop)
        } else if str_eq(code, "4") {
            Some(Genre::Rock)
        } else if str_eq(code, "1") {
            Some(Genre::Unspecified)
        } else if str_eq(code, "2") {
            Some(Genre::VideoGame)
        } else {
            None
        }
    }
}

/// Law: the code mapping is bidirectional; every variant's code maps back to
/// that variant.
pub proof fn lemma_genre_codes(v: Genre)
    ensures
        Genre::spec_from_code(v.spec_code()) == Some(v),
{
    lemma_code_literals();
}

/// The language of a beatmap's song.
#[derive(Clone, Copy, Debug, PartialEq, Eq, Structural)]
pub enum Language {
    Any,
    Chinese,
    English,
    French,
    Instrumental,
    German,
    Italian,
    Japanese,
    Korean,
    Spanish,
    Swedish,
    Other,
}

impl Language {
    /// The numeric-string code the external API uses for this variant.
    pub open spec fn spec_code(self) -> Seq<char> {
        match self {
            Language::Any => "0"@,
            Language::Chinese => "4"@,
            Language::English => "2"@,
            Language::French => "7"@,
            Language::Instrumental => "5"@,
            Language::German => "8"@,
            Language::Italian => "11"@,
            Language::Japanese => "3"@,
            Language::Korean => "6"@,
            Language::Spanish => "10"@,
            Language::Swedish => "9"@,
            Language::Other => "1"@,
        }
    }

    /// Which variant a code denotes, if any.
    pub open spec fn spec_from_code(s: Seq<char>) -> Option<Language> {
        if s == "0"@ {
            Some(Language::Any)
        } else if s == "4"@ {
            Some(Language::Chinese)
        } else if s == "2"@ {
            Some(Language::English)
        } else if s == "7"@ {
            Some(Language::French)
        } else if s == "5"@ {
            Some(Language::Instrumental)
        } else if s == "8"@ {
            Some(Language::German)
        } else if s == "11"@ {
            Some(Language::Italian)
        } else if s == "3"@ {
            Some(Language::Japanese)
        } else if s == "6"@ {
            Some(Language::Korean)
        } else if s == "10"@ {
            Some(Language::Spanish)
        } else if s == "9"@ {
            Some(Language::Swedish)
        } else if s == "1"@ {
            Some(Language::Other)
        } else {
            None
        }
    }

    pub fn code(&self) -> (r: &'static str)
        ensures
            r@ == self.spec_code(),
    {
        match self {
            Language::Any => "0",
            Language::Chinese => "4",
            Language::English => "2",
            Language::French => "7",
            Language::Instrumental => "5",
            Language::German => "8",
            Language::Italian => "11",
            Language::Japanese => "3",
            Language::Korean => "6",
            Language::Spanish => "10",
            Language::Swedish => "9",
            Language::Other => "1",
        }
    }

    pub fn from_code(code: &str) -> (r: Option<Language>)
        ensures
            r == Self::spec_from_code(code@),
    {
        if str_eq(code, "0") {
            Some(Language::Any)
        } else if str_eq(code, "4") {
            Some(Language::Chinese)
        } else if str_eq(code, "2") {
            Some(Language::English)
        } else if str_eq(code, "7") {
            Some(Language::French)
        } else if str_eq(code, "5") {
            Some(Language::Instrumental)
        } else if str_eq(code, "8") {
            Some(Language::German)
        } else if str_eq(code, "11") {
            Some(Language::Italian)
        } else if str_eq(code, "3") {
            Some(Language::Japanese)
        } else if str_eq(code, "6") {
            Some(Language::Korean)
        } else if str_eq(code, "10") {
            Some(Language::Spanish)
        } else if str_eq(code, "9") {
            Some(Language::Swedish)
        } else if str_eq(code, "1") {
            Some(Language::Other)
        } else {
            None
        }
    }
}

/// Law: the code mapping is bidirectional; every variant's code maps back to
/// that variant.
pub proof fn lemma_language_codes(v: Language)
    ensures
        Language::spec_from_code(v.spec_code()) == Some(v),
{
    lemma_code_literals();
}

/// The game mode a beatmap or score belongs to.
#[derive(Clone, Copy, Debug, PartialEq, Eq, Structural)]
pub enum PlayMode {
    CatchTheBeat,
    Mania,
    Standard,
    Taiko,
}

impl PlayMode {
    /// The numeric-string code the external API uses for this variant.
    pub open spec fn spec_code(self) -> Seq<char> {
        match self {
            PlayMode::CatchTheBeat => "2"@,
            PlayMode::Mania => "3"@,
            PlayMode::Standard => "0"@,
            PlayMode::Taiko => "1"@,
        }
    }

    /// Which variant a code denotes, if any.
    pub open spec fn spec_from_code(s: Seq<char>) -> Option<PlayMode> {
        if s == "2"@ {
            Some(PlayMode::CatchTheBeat)
        } else if s == "3"@ {
            Some(PlayMode::Mania)
        } else if s == "0"@ {
            Some(PlayMode::Standard)
        } else if s == "1"@ {
            Some(PlayMode::Taiko)
        } else {
            None
        }
    }

    pub fn code(&self) -> (r: &'static str)
        ensures
            r@ == self.spec_code(),
    {
        match self {
            PlayMode::CatchTheBeat => "2",
            PlayMode::Mania => "3",
            PlayMode::Standard => "0",
            PlayMode::Taiko => "1",
        }
    }

    pub fn from_code(code: &str) -> (r: Option<PlayMode>)
        ensures
            r == Self::spec_from_code(code@),
    {
        if str_eq(code, "2") {
            Some(PlayMode::CatchTheBeat)
        } else if str_eq(code, "3") {
            Some(PlayMode::Mania)
        } else if str_eq(code, "0") {
            Some(PlayMode::Standard)
        } else if str_eq(code, "1") {
            Some(PlayMode::Taiko)
        } else {
            None
        }
    }
}

/// Law: the code mapping is bidirectional; every variant's code maps back to
/// that variant.
pub proof fn lemma_play_mode_codes(v: PlayMode)
    ensures
        PlayMode::spec_from_code(v.spec_code()) == Some(v),
{
    lemma_code_literals();
}

/// How a multiplayer game was scored.
#[derive(Clone, Copy, Debug, PartialEq, Eq, Structural)]
pub enum ScoringType {
    Accuracy,
    Combo,
    Score,
    ScoreV2,
}

impl ScoringType {
    /// The numeric-string code the external API uses for this variant.
    pub open spec fn spec_code(self) -> Seq<char> {
        match self {
            ScoringType::Accuracy => "1"@,
            ScoringType::Combo => "2"@,
            ScoringType::Score => "0"@,
            ScoringType::ScoreV2 => "3"@,
        }
    }

    /// Which variant a code denotes, if any.
    pub open spec fn spec_from_code(s: Seq<char>) -> Option<ScoringType> {
        if s == "1"@ {
            Some(ScoringType::Accuracy)
        } else if s == "2"@ {
            Some(ScoringType::Combo)
        } else if s == "0"@ {
            Some(ScoringType::Score)
        } else if s == "3"@ {
            Some(ScoringType::ScoreV2)
        } else {
            None
        }
    }

    pub fn code(&self) -> (r: &'static str)
        ensures
            r@ == self.spec_code(),
    {
        match self {
            ScoringType::Accuracy => "1",
            ScoringType::Combo => "2",
            ScoringType::Score => "0",
            ScoringType::ScoreV2 => "3",
        }
    }

    pub fn from_code(code: &str) -> (r: Option<ScoringType>)
        ensures
            r == Self::spec_from_code(code@),
    {
        if str_eq(code, "1") {
            Some(ScoringType::Accuracy)
        } else if str_eq(code, "2") {
            Some(ScoringType::Combo)
        } else if str_eq(code, "0") {
            Some(ScoringType::Score)
        } else if str_eq(code, "3") {
            Some(ScoringType::ScoreV2)
        } else {
            None
        }
    }
}

/// Law: the code mapping is bidirectional; every variant's code maps back to
/// that variant.
pub proof fn lemma_scoring_type_codes(v: ScoringType)
    ensures
        ScoringType::spec_from_code(v.spec_code()) == Some(v),
{
    lemma_code_literals();
}

/// How the players of a multiplayer game were teamed.
#[derive(Clone, Copy, Debug, PartialEq, Eq, Structural)]
pub enum TeamType {
    HeadToHead,
    TagCoOp,
    TagTeamVs,
    TeamVs,
}

impl TeamType {
    /// The numeric-string code the external API uses for this variant.
    pub open spec fn spec_code(self) -> Seq<char> {
        match self {
            TeamType::HeadToHead => "0"@,
            TeamType::TagCoOp => "1"@,
            TeamType::TagTeamVs => "3"@,
            TeamType::TeamVs => "2"@,
        }
    }

    /// Which variant a code denotes, if any.
    pub open spec fn spec_from_code(s: Seq<char>) -> Option<TeamType> {
        if s == "0"@ {
            Some(TeamType::HeadToHead)
        } else if s == "1"@ {
            Some(TeamType::TagCoOp)
        } else if s == "3"@ {
            Some(TeamType::TagTeamVs)
        } else if s == "2"@ {
            Some(TeamType::TeamVs)
        } else {
            None
        }
    }

    pub fn code(&self) -> (r: &'static str)
        ensures
            r@ == self.spec_code(),
    {
        match self {
            TeamType::HeadToHead => "0",
            TeamType::TagCoOp => "1",
            TeamType::TagTeamVs => "3",
            TeamType::TeamVs => "2",
        }
    }

    pub fn from_code(code: &str) -> (r: Option<TeamType>)
        ensures
            r == Self::spec_from_code(code@),
    {
        if str_eq(code, "0") {
            Some(TeamType::HeadToHead)
        } else if str_eq(code, "1") {
            Some(TeamType::TagCoOp)
        } else if str_eq(code, "3") {
            Some(TeamType::TagTeamVs)
        } else if str_eq(code, "2") {
            Some(TeamType::TeamVs)
        } else {
            None
        }
    }
}

/// Law: the code mapping is bidirectional; every variant's code maps back to
/// that variant.
pub proof fn lemma_team_type_codes(v: TeamType)
    ensures
        TeamType::spec_from_code(v.spec_code()) == Some(v),
{
    lemma_code_literals();
}

} // verus!
