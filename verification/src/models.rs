//! Rows of the two tables, the values that travel with a request, and the
//! outcomes an operation can report.

use vstd::prelude::*;

verus! {

/// A player's resource account.
#[derive(Clone, Copy, Debug, PartialEq, Eq, Structural)]
pub struct Fortress {
    pub id: i32,
    pub gold: i32,
    pub food: i32,
    pub wood: i32,
    pub energy: i32,
}

/// The counters of a fortress that the store has not yet given an id.
#[derive(Clone, Copy, Debug, PartialEq, Eq, Structural)]
pub struct NewFortress {
    pub gold: i32,
    pub food: i32,
    pub wood: i32,
    pub energy: i32,
}

/// New values for the counters of a fortress; `None` leaves a counter as it is.
#[derive(Clone, Copy, Debug, PartialEq, Eq, Structural)]
pub struct UpdateFortress {
    pub gold: Option<i32>,
    pub food: Option<i32>,
    pub wood: Option<i32>,
    pub energy: Option<i32>,
}

/// A leveled structure owned by one fortress.
#[derive(Clone, Debug, PartialEq, Eq)]
pub struct Building {
    pub id: i32,
    pub name: String,
    pub level: i32,
    pub fortress_id: i32,
}

/// A building that the store has not yet given an id.
#[derive(Clone, Debug, PartialEq, Eq)]
pub struct NewBuilding {
    pub name: String,
    pub level: i32,
    pub fortress_id: i32,
}

/// New values for the columns of a building; `None` leaves a column as it is.
#[derive(Clone, Debug, PartialEq, Eq)]
pub struct UpdateBuilding {
    pub name: Option<String>,
    pub level: Option<i32>,
    pub fortress_id: Option<i32>,
}

/// What must be debited from a fortress to raise one building by one level.
#[derive(Clone, Copy, Debug, PartialEq, Eq, Structural)]
pub struct Costs {
    pub gold: i32,
    pub food: i32,
    pub wood: i32,
    pub energy: i32,
}

/// One of the four counters of a fortress.
#[derive(Clone, Copy, Debug, PartialEq, Eq, Structural)]
pub enum ResourceKind {
    Gold,
    Food,
    Wood,
    Energy,
}

/// Why an operation of the engine did not go through.
#[derive(Clone, Copy, Debug, PartialEq, Eq, Structural)]
pub enum EngineError {
    /// No building has the requested id.
    BuildingNotFound,
    /// No fortress has the requested id.
    FortressNotFound,
    /// The building belongs to another fortress than the one supplied.
    FortressMismatch,
    /// The building already stands at the configured ceiling.
    MaxLevel,
    /// The fortress cannot pay the costs.
    InsufficientResources,
    /// Another upgrade of the same building got there first.
    ConcurrentUpdate,
    /// The request itself is malformed.
    InvalidArgument,
    /// The store failed in a way the engine does not model.
    Internal,
}

/// The kind of resource that goes by `name`, if one does.
pub open spec fn spec_kind_of_name(name: Seq<char>) -> Option<ResourceKind> {
    if name == "gold"@ {
        Some(ResourceKind::Gold)
    } else if name == "food"@ {
        Some(ResourceKind::Food)
    } else if name == "wood"@ {
        Some(ResourceKind::Wood)
    } else if name == "energy"@ {
        Some(ResourceKind::Energy)
    } else {
        None
    }
}

impl ResourceKind {
    /// The name of the counter: "gold", "food", "wood" or "energy".
    pub open spec fn spec_name(&self) -> Seq<char> {
        match self {
            ResourceKind::Gold => "gold"@,
            ResourceKind::Food => "food"@,
            ResourceKind::Wood => "wood"@,
            ResourceKind::Energy => "energy"@,
        }
    }

    /// The name of the counter: "gold", "food", "wood" or "energy".
    pub fn name(&self) -> (r: &'static str)
        ensures
            r@ == self.spec_name(),
    {
        match self {
            ResourceKind::Gold => "gold",
            ResourceKind::Food => "food",
            ResourceKind::Wood => "wood",
            ResourceKind::Energy => "energy",
        }
    }

    /// The kind that goes by `name`. A name that is none of the four is an
    /// invalid argument.
    pub fn from_name(name: &str) -> (r: Result<ResourceKind, EngineError>)
        ensures
            match spec_kind_of_name(name@) {
                Some(kind) => r == Ok::<ResourceKind, EngineError>(kind),
                None => r == Err::<ResourceKind, EngineError>(EngineError::InvalidArgument),
            },
    {
        let given = name.to_owned();
        if given == "gold".to_owned() {
            Ok(ResourceKind::Gold)
        } else if given == "food".to_owned() {
            Ok(ResourceKind::Food)
        } else if given == "wood".to_owned() {
            Ok(ResourceKind::Wood)
        } else if given == "energy".to_owned() {
            Ok(ResourceKind::Energy)
        } else {
            Err(EngineError::InvalidArgument)
        }
    }
}

/// Each kind is found again by its own name.
pub proof fn lemma_kind_of_own_name(kind: ResourceKind)
    ensures
        spec_kind_of_name(kind.spec_name()) == Some(kind),
{
    reveal_strlit("gold");
    reveal_strlit("food");
    reveal_strlit("wood");
    reveal_strlit("energy");
    assert("gold"@[0] == 'g');
    assert("food"@[0] == 'f');
    assert("wood"@[0] == 'w');
    assert("energy"@[0] == 'e');
}

impl Fortress {
    /// All four counters are non-negative.
    pub open spec fn wf(&self) -> bool {
        &&& self.gold >= 0
        &&& self.food >= 0
        &&& self.wood >= 0
        &&& self.energy >= 0
    }

    /// The counter that `kind` selects.
    pub open spec fn spec_amount(&self, kind: ResourceKind) -> int {
        match kind {
            ResourceKind::Gold => self.gold as int,
            ResourceKind::Food => self.food as int,
            ResourceKind::Wood => self.wood as int,
            ResourceKind::Energy => self.energy as int,
        }
    }

    /// The counter that `kind` selects.
    pub fn amount(&self, kind: ResourceKind) -> (r: i32)
        ensures
            r == self.spec_amount(kind),
    {
        match kind {
            ResourceKind::Gold => self.gold,
            ResourceKind::Food => self.food,
            ResourceKind::Wood => self.wood,
            ResourceKind::Energy => self.energy,
        }
    }
}

impl NewFortress {
    /// A fortress that owns nothing yet.
    pub fn new() -> (r: Self)
        ensures
            r == (NewFortress { gold: 0, food: 0, wood: 0, energy: 0 }),
    {
        NewFortress { gold: 0, food: 0, wood: 0, energy: 0 }
    }
}

impl Default for NewFortress {
    fn default() -> (r: Self)
        ensures
            r == (NewFortress { gold: 0, food: 0, wood: 0, energy: 0 }),
    {
        NewFortress::new()
    }
}

impl NewBuilding {
    /// A building of the given name at level 0, owned by `fortress_id`.
    pub fn new(name: String, fortress_id: i32) -> (r: Self)
        ensures
            r.name == name,
            r.level == 0,
            r.fortress_id == fortress_id,
    {
        NewBuilding { name, level: 0, fortress_id }
    }
}

/// The four buildings that every fortress starts with, each at level 0:
/// a bank, a farm, a sawmill and a sanctuary, in this order.
pub fn default_new_buildings(fortress_id: i32) -> (r: Vec<NewBuilding>)
    ensures
        r@.len() == 4,
        r@[0].name@ == "bank"@,
        r@[1].name@ == "farm"@,
        r@[2].name@ == "sawmill"@,
        r@[3].name@ == "sanctuary"@,
        forall|i: int| 0 <= i < 4 ==> r@[i].level == 0 && r@[i].fortress_id == fortress_id,
{
    let mut out: Vec<NewBuilding> = Vec::new();
    out.push(NewBuilding::new("bank".to_owned(), fortress_id));
    out.push(NewBuilding::new("farm".to_owned(), fortress_id));
    out.push(NewBuilding::new("sawmill".to_owned(), fortress_id));
    out.push(NewBuilding::new("sanctuary".to_owned(), fortress_id));
    out
}

impl Costs {
    /// No component is negative.
    pub open spec fn wf(&self) -> bool {
        &&& self.gold >= 0
        &&& self.food >= 0
        &&& self.wood >= 0
        &&& self.energy >= 0
    }
}

impl EngineError {
    /// The text that goes with each outcome.
    pub open spec fn spec_message(&self) -> Seq<char> {
        match self {
            EngineError::BuildingNotFound => "building not found"@,
            EngineError::FortressNotFound => "fortress not found"@,
            EngineError::FortressMismatch => "fortress id mismatch"@,
            EngineError::MaxLevel => "building level is too high"@,
            EngineError::InsufficientResources => "insufficient resources"@,
            EngineError::ConcurrentUpdate => "concurrent update"@,
            EngineError::InvalidArgument => "invalid argument"@,
            EngineError::Internal => "internal error"@,
        }
    }

    /// The text that goes with this outcome.
    pub fn message(&self) -> (r: String)
        ensures
            r@ == self.spec_message(),
    {
        match self {
            EngineError::BuildingNotFound => "building not found".to_owned(),
            EngineError::FortressNotFound => "fortress not found".to_owned(),
            EngineError::FortressMismatch => "fortress id mismatch".to_owned(),
            EngineError::MaxLevel => "building level is too high".to_owned(),
            EngineError::InsufficientResources => "insufficient resources".to_owned(),
            EngineError::ConcurrentUpdate => "concurrent update".to_owned(),
            EngineError::InvalidArgument => "invalid argument".to_owned(),
            EngineError::Internal => "internal error".to_owned(),
        }
    }

    /// Whether the caller may run the same request again with fresh data.
    pub open spec fn spec_is_retryable(&self) -> bool {
        *self == EngineError::ConcurrentUpdate || *self == EngineError::InsufficientResources
    }

    /// Whether the caller may run the same request again with fresh data:
    /// a lost race, or funds that may yet accumulate.
    pub fn is_retryable(&self) -> (r: bool)
        ensures
            r == self.spec_is_retryable(),
    {
        match self {
            EngineError::ConcurrentUpdate => true,
            EngineError::InsufficientResources => true,
            _ => false,
        }
    }
}

/// No two outcomes share a text: a caller can tell each from its message.
pub proof fn lemma_messages_differ(a: EngineError, b: EngineError)
    requires
        a != b,
    ensures
        a.spec_message() != b.spec_message(),
{
    reveal_strlit("building not found");
    reveal_strlit("fortress not found");
    reveal_strlit("fortress id mismatch");
    reveal_strlit("building level is too high");
    reveal_strlit("insufficient resources");
    reveal_strlit("concurrent update");
    reveal_strlit("invalid argument");
    reveal_strlit("internal error");
    assert("building not found"@.len() == 18);
    assert("fortress not found"@.len() == 18);
    assert("fortress id mismatch"@.len() == 20);
    assert("building level is too high"@.len() == 26);
    assert("insufficient resources"@.len() == 22);
    assert("concurrent update"@.len() == 17);
    assert("invalid argument"@.len() == 16);
    assert("internal error"@.len() == 14);
    assert("building not found"@[0] == 'b');
    assert("fortress not found"@[0] == 'f');
}

} // verus!
