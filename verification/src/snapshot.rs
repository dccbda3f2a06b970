//! Volume snapshots as the command line names, lists and shows them.

use std::fmt::Write;
use vstd::prelude::*;

verus! {

/// Id of a volume.
pub type VolumeId = uuid::Uuid;

/// Id of a snapshot.
pub type SnapshotId = uuid::Uuid;

/// The collection of volume snapshots.
#[derive(Clone, Copy, Debug, PartialEq, Eq, Structural)]
pub struct VolumeSnapshots {}

/// Which volume snapshots are meant.
#[derive(Clone, Debug, PartialEq, Eq)]
pub struct VolumeSnapshotArgs {
    volume: Option<VolumeId>,
    snapshot: Option<SnapshotId>,
}

impl VolumeSnapshotArgs {
    /// Arguments that name the snapshots of `volume`, where one is given,
    /// and the one snapshot `snapshot`, where one is given.
    pub fn new(volume: Option<VolumeId>, snapshot: Option<SnapshotId>) -> (r: Self)
        ensures
            r.spec_volume() == volume,
            r.spec_snapshot() == snapshot,
    {
        VolumeSnapshotArgs { volume, snapshot }
    }

    /// The volume id that the arguments hold.
    pub closed spec fn spec_volume(&self) -> Option<VolumeId> {
        self.volume
    }

    /// The snapshot id that the arguments hold.
    pub closed spec fn spec_snapshot(&self) -> Option<SnapshotId> {
        self.snapshot
    }

    /// Get the volume id from args.
    #[verifier::when_used_as_spec(spec_volume)]
    pub fn volume(&self) -> (r: Option<VolumeId>)
        ensures
            r == self.spec_volume(),
    {
        self.volume
    }

    /// Get the snapshot id from args.
    #[verifier::when_used_as_spec(spec_snapshot)]
    pub fn snapshot(&self) -> (r: Option<SnapshotId>)
        ensures
            r == self.spec_snapshot(),
    {
        self.snapshot
    }
}

/// How many snapshots are asked for at a time.
pub const MAX_ENTRIES: isize = 100;

/// A listing in progress: the entries of the pages that have come so far.
#[derive(Debug, PartialEq, Eq)]
pub struct Listing<T> {
    entries: Vec<T>,
}

impl<T> View for Listing<T> {
    type V = Seq<T>;

    closed spec fn view(&self) -> Seq<T> {
        self.entries@
    }
}

/// One step of a listing: a page to fetch, or its result.
#[derive(Debug, PartialEq, Eq)]
pub enum ListingStep<T, E> {
    /// The driver fetches up to `max_entries` entries from `starting_token`
    /// on and reports the page to [`get_snapshots_next`] with `state`.
    Fetch { state: Listing<T>, max_entries: isize, starting_token: isize },
    /// The listing has ended: with all entries, or with the error of the
    /// page that failed.
    Done(Result<Vec<T>, E>),
}

/// One page of a listing: its entries, and where the next page starts if
/// there is one.
#[derive(Debug, PartialEq, Eq)]
pub struct Page<T> {
    pub entries: Vec<T>,
    pub next_token: Option<isize>,
}

/// Begins to list snapshots: the first page starts at token 0.
pub fn get_snapshots<T, E>() -> (step: ListingStep<T, E>)
    ensures
        step matches ListingStep::Fetch { state, max_entries, starting_token } && state@.len()
            == 0 && max_entries == MAX_ENTRIES && starting_token == 0,
{
    ListingStep::Fetch {
        state: Listing { entries: Vec::new() },
        max_entries: MAX_ENTRIES,
        starting_token: 0,
    }
}

/// Goes on with a listing once a page has come, or has failed to.
///
/// The entries of the page are put behind those that came before. A page
/// that names a next token is followed by the page that starts there; a page
/// that names none ends the listing with all entries. A page that failed
/// ends the listing with its error.
pub fn get_snapshots_next<T, E>(state: Listing<T>, page: Result<Page<T>, E>) -> (step: ListingStep<
    T,
    E,
>)
    ensures
        match page {
            Ok(p) => match p.next_token {
                Some(token) => step matches ListingStep::Fetch {
                    state: then,
                    max_entries,
                    starting_token,
                } && then@ == state@ + p.entries@ && max_entries == MAX_ENTRIES && starting_token
                    == token,
                None => step matches ListingStep::Done(Ok(all)) && all@ == state@ + p.entries@,
            },
            Err(e) => step matches ListingStep::Done(Err(error)) && error == e,
        },
{
    match page {
        Ok(p) => {
            let mut entries = state.entries;
            let mut more = p.entries;
            entries.append(&mut more);
            match p.next_token {
                Some(token) => ListingStep::Fetch {
                    state: Listing { entries },
                    max_entries: MAX_ENTRIES,
                    starting_token: token,
                },
                None => ListingStep::Done(Ok(entries)),
            }
        },
        Err(e) => ListingStep::Done(Err(e)),
    }
}

/// What the `chrono` crate makes of a timestamp: `None` where it does not
/// read `text` as a date and time with an offset, or cannot write one in
/// `layout`; else that moment in UTC, written in `layout`.
pub uninterp spec fn chrono_utc(text: Seq<char>, layout: Seq<char>) -> Option<Seq<char>>;

/// Reads a timestamp and writes it in UTC in the given layout.
///
/// Trusted: the text goes through `<chrono::DateTime<Utc> as FromStr>::from_str`
/// and what that gives through `DateTime::format`, whose result is written
/// out by its `Display`. Nothing but the two arguments goes into either, so
/// the result is [`chrono_utc`] of them. A layout that `chrono` cannot write
/// makes the `Display` fail, which is handed back as `None`.
#[verifier::external_body]
fn utc_text(text: &str, layout: &str) -> (r: Option<String>)
    ensures
        match r {
            Some(written) => chrono_utc(text@, layout@) == Some(written@),
            None => chrono_utc(text@, layout@) is None,
        },
{
    match text.parse::<chrono::DateTime<chrono::Utc>>() {
        Ok(time) => {
            let mut written = String::new();
            match write!(written, "{}", time.format(layout)) {
                Ok(_) => Some(written),
                Err(_) => None,
            }
        },
        Err(_) => None,
    }
}

/// The layout in which the time of a snapshot is shown.
pub open spec fn shown_layout() -> Seq<char> {
    "%Y-%m-%dT%H:%M:%SZ"@
}

/// The time of a snapshot as it is shown, given the time as it is recorded
/// and, where it could be read, as it was rewritten.
pub open spec fn shown_time(recorded: Seq<char>, rewritten: Option<Seq<char>>) -> Seq<char> {
    match rewritten {
        Some(written) => written,
        None => recorded,
    }
}

/// Picks the time to show for a snapshot: the rewritten one where there is
/// one, else the time as it is recorded.
pub fn pick_timestamp(recorded: &str, rewritten: Option<String>) -> (r: String)
    ensures
        r@ == shown_time(
            recorded@,
            match rewritten {
                Some(w) => Some(w@),
                None => None,
            },
        ),
{
    match rewritten {
        Some(written) => written,
        None => recorded.to_owned(),
    }
}

/// The time of a snapshot as it is shown in a table: in UTC, to the second.
/// A time that cannot be read is shown as it is recorded, and a snapshot
/// without a time shows none.
pub fn snapshot_timestamp(timestamp: Option<&str>) -> (r: Option<String>)
    ensures
        match timestamp {
            Some(recorded) => r matches Some(shown) && shown@ == shown_time(
                recorded@,
                chrono_utc(recorded@, shown_layout()),
            ),
            None => r is None,
        },
{
    match timestamp {
        Some(recorded) => {
            let rewritten = utc_text(recorded, "%Y-%m-%dT%H:%M:%SZ");
            Some(pick_timestamp(recorded, rewritten))
        },
        None => None,
    }
}

} // verus!
