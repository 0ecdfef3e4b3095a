//! Activity data model: the payloads the route surface accepts and the typed
//! variants they carry. Activity CRUD itself is conventional persistence
//! plumbing; what is modelled here are the data shapes and the string/enum
//! boundary conversions, which reject unknown labels instead of aborting.

use vstd::prelude::*;

verus! {

/// The kind of an activity.
#[derive(Clone, Copy, Debug, PartialEq, Eq, Structural)]
pub enum ActivityVariant {
    Default,
    Exercise,
}

impl ActivityVariant {
    /// Parse a stored or transmitted variant label; unknown labels are a
    /// client-input error, not a fatal condition.
    pub fn parse(s: &String) -> (r: Option<ActivityVariant>)
        ensures
            s@ == "default"@ ==> r == Some(ActivityVariant::Default),
            s@ == "exercise"@ ==> r == Some(ActivityVariant::Exercise),
            (s@ != "default"@ && s@ != "exercise"@) ==> r is None,
    {
        proof {
            reveal_strlit("default");
            reveal_strlit("exercise");
            assert("default"@.len() == 7 && "exercise"@.len() == 8);
        }
        if *s == String::from_str("default") {
            Some(ActivityVariant::Default)
        } else if *s == String::from_str("exercise") {
            Some(ActivityVariant::Exercise)
        } else {
            None
        }
    }

    /// The canonical stored label of this variant.
    pub fn label(&self) -> (r: String)
        ensures
            *self == ActivityVariant::Default ==> r@ == "default"@,
            *self == ActivityVariant::Exercise ==> r@ == "exercise"@,
    {
        match self {
            ActivityVariant::Default => String::from_str("default"),
            ActivityVariant::Exercise => String::from_str("exercise"),
        }
    }
}

/// The kind of an exercise.
#[derive(Clone, Copy, Debug, PartialEq, Eq, Structural)]
pub enum ExerciseVariant {
    Strength,
    Mobility,
    Cardio,
}

impl ExerciseVariant {
    /// Parse a stored or transmitted exercise label; unknown labels are
    /// rejected.
    pub fn parse(s: &String) -> (r: Option<ExerciseVariant>)
        ensures
            s@ == "strength"@ ==> r == Some(ExerciseVariant::Strength),
            s@ == "mobility"@ ==> r == Some(ExerciseVariant::Mobility),
            s@ == "cardio"@ ==> r == Some(ExerciseVariant::Cardio),
            (s@ != "strength"@ && s@ != "mobility"@ && s@ != "cardio"@) ==> r is None,
    {
        proof {
            reveal_strlit("strength");
            reveal_strlit("mobility");
            reveal_strlit("cardio");
            assert("strength"@.len() == 8 && "mobility"@.len() == 8 && "cardio"@.len() == 6);
            assert("strength"@[0] == 's' && "mobility"@[0] == 'm');
        }
        if *s == String::from_str("strength") {
            Some(ExerciseVariant::Strength)
        } else if *s == String::from_str("mobility") {
            Some(ExerciseVariant::Mobility)
        } else if *s == String::from_str("cardio") {
            Some(ExerciseVariant::Cardio)
        } else {
            None
        }
    }

    /// The canonical stored label of this exercise kind.
    pub fn label(&self) -> (r: String)
        ensures
            *self == ExerciseVariant::Strength ==> r@ == "strength"@,
            *self == ExerciseVariant::Mobility ==> r@ == "mobility"@,
            *self == ExerciseVariant::Cardio ==> r@ == "cardio"@,
    {
        match self {
            ExerciseVariant::Strength => String::from_str("strength"),
            ExerciseVariant::Mobility => String::from_str("mobility"),
            ExerciseVariant::Cardio => String::from_str("cardio"),
        }
    }
}

/// One set of a strength or mobility exercise.
pub struct ExerciseSet {
    pub idx: u8,
    pub reps: Option<u32>,
    pub weight: Option<u32>,
    pub rest: Option<u32>,
    pub duration: Option<u32>,
}

/// One split of a cardio exercise.
pub struct Split {
    pub idx: u8,
    pub distance: Option<u32>,
    pub duration: Option<u32>,
}

pub struct StrengthExercise {
    pub title: String,
    pub sets: Vec<ExerciseSet>,
}

pub struct MobilityExercise {
    pub title: String,
    pub sets: Vec<ExerciseSet>,
}

pub struct CardioExercise {
    pub title: String,
    pub duration: u32,
    pub distance: u32,
    pub splits: Option<Vec<Split>>,
}

pub enum Exercise {
    Strength(StrengthExercise),
    Mobility(MobilityExercise),
    Cardio(CardioExercise),
}

/// The structured payload an exercise activity carries.
pub struct ActivityData {
    pub exercise: Option<Vec<Exercise>>,
}

pub struct GetActivityPayload {
    pub id: String,
}

pub struct GetActivitiesPayload {
    pub timezone: Option<i16>,
    pub variant: Option<ActivityVariant>,
    pub title: Option<String>,
    pub group: Option<String>,
    pub start: Option<String>,
    pub end: Option<String>,
}

pub struct PostActivityPayload {
    pub title: String,
    pub variant: ActivityVariant,
    pub group: String,
    pub notes: Option<String>,
    pub start: String,
    pub end: String,
    pub timezone: i16,
    pub data: Option<ActivityData>,
    pub color: Option<String>,
}

pub struct PatchActivityBody {
    pub variant: Option<ActivityVariant>,
    pub title: Option<String>,
    pub group: Option<String>,
    pub notes: Option<String>,
    pub start: Option<String>,
    pub end: Option<String>,
    pub timezone: Option<i16>,
    pub data: Option<ActivityData>,
    pub color: Option<String>,
}

pub struct PatchActivityPayload {
    pub id: String,
    pub variant: Option<ActivityVariant>,
    pub title: Option<String>,
    pub group: Option<String>,
    pub notes: Option<String>,
    pub start: Option<String>,
    pub end: Option<String>,
    pub timezone: Option<i16>,
    pub data: Option<ActivityData>,
    pub color: Option<String>,
}

impl PatchActivityPayload {
    /// Attach the path id to an update body, as the update route does.
    pub fn from_body(id: String, body: PatchActivityBody) -> (r: PatchActivityPayload)
        ensures
            r.id == id,
            r.variant == body.variant,
            r.title == body.title,
            r.group == body.group,
            r.notes == body.notes,
            r.start == body.start,
            r.end == body.end,
            r.timezone == body.timezone,
            r.color == body.color,
    {
        PatchActivityPayload {
            id,
            variant: body.variant,
            title: body.title,
            group: body.group,
            notes: body.notes,
            start: body.start,
            end: body.end,
            timezone: body.timezone,
            data: body.data,
            color: body.color,
        }
    }
}

pub struct DeleteActivityPayload {
    pub id: String,
}

} // verus!
