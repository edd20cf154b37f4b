use vstd::prelude::*;

verus! {

/// Number of seconds after which a stored snapshot is no longer trusted
/// without a refetch (six hours).
pub const FRESHNESS_WINDOW_SECS: i64 = 21600;

/// Mathematical model of an optional text field.
pub open spec fn opt_chars(o: Option<String>) -> Option<Seq<char>> {
    match o {
        Some(s) => Some(s@),
        None => None,
    }
}

/// Mathematical model of a profile snapshot.
#[verifier::ext_equal]
pub ghost struct RecordModel {
    pub id: Seq<char>,
    pub display_name: Option<Seq<char>>,
    pub username: Seq<char>,
    pub accent_color: Option<Seq<char>>,
    pub avatar_ref: Seq<char>,
    pub bio: Seq<char>,
    pub captured_at: int,
}

/// A normalized snapshot of a remote user's public attributes, together with
/// the time at which it was captured.
pub struct ProfileRecord {
    pub id: String,
    pub display_name: Option<String>,
    pub username: String,
    pub accent_color: Option<String>,
    pub avatar_ref: String,
    pub bio: String,
    pub captured_at: i64,
}

impl View for ProfileRecord {
    type V = RecordModel;

    open spec fn view(&self) -> RecordModel {
        RecordModel {
            id: self.id@,
            display_name: opt_chars(self.display_name),
            username: self.username@,
            accent_color: opt_chars(self.accent_color),
            avatar_ref: self.avatar_ref@,
            bio: self.bio@,
            captured_at: self.captured_at as int,
        }
    }
}

/// Clones an optional text field.
pub fn clone_opt_string(o: &Option<String>) -> (r: Option<String>)
    ensures
        opt_chars(r) == opt_chars(*o),
{
    match o {
        Some(s) => Some(s.clone()),
        None => None,
    }
}

impl Clone for ProfileRecord {
    fn clone(&self) -> (r: Self)
        ensures
            r@ == self@,
    {
        let r = ProfileRecord {
            id: self.id.clone(),
            display_name: clone_opt_string(&self.display_name),
            username: self.username.clone(),
            accent_color: clone_opt_string(&self.accent_color),
            avatar_ref: self.avatar_ref.clone(),
            bio: self.bio.clone(),
            captured_at: self.captured_at,
        };
        proof {
            assert(r@ =~= self@);
        }
        r
    }
}

/// A snapshot captured at `captured_at` is fresh at `now` exactly when its
/// age is strictly below the freshness window.
pub open spec fn fresh_at(captured_at: int, now: int) -> bool {
    now - captured_at < FRESHNESS_WINDOW_SECS as int
}

/// Freshness is a pure function of the capture and query timestamps.
pub fn is_fresh(captured_at: i64, now: i64) -> (r: bool)
    ensures
        r == fresh_at(captured_at as int, now as int),
{
    (now as i128) - (captured_at as i128) < (FRESHNESS_WINDOW_SECS as i128)
}

} // verus!
