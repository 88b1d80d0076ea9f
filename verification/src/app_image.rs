//! The images of applications: where each one is kept once it has been
//! fetched, and what to do to get the one of a message.
//!
//! Looking an image up may take several steps that touch the disk or the
//! server. Each step is described by a `Resolution`; the caller performs it
//! and reports what came of it as a `ResolveEvent`.

use vstd::prelude::*;
use std::collections::HashMap;
use crate::message::{AppInfo, AppInfoView};
use crate::text::{file_name, file_name_of, optional};

verus! {

broadcast use vstd::std_specs::hash::group_hash_axioms;

/// Where the search for an application's image stands, and what is to be
/// done next.
#[derive(Debug, Clone, PartialEq, Eq)]
#[allow(inconsistent_fields)]
pub enum Resolution {
    /// The search is over: the image is the file at `path`, or the
    /// application has none.
    Done { path: Option<String> },
    /// The image was stored at `path` earlier: see whether the file is still
    /// there.
    CheckCached { path: String },
    /// Ask the server for its applications. `lost` is the path of a stored
    /// image whose file is gone.
    FetchApps { lost: Option<String> },
    /// Find the place in the cache directory for a file called `name`.
    PlaceFile { image: String, name: String },
    /// See whether the file at `path` already exists.
    CheckPlaced { image: String, path: String },
    /// Fetch `image` from the server and write it to `path`. With `keep`, the
    /// path is then remembered for the application.
    Download { image: String, path: String, keep: bool },
}

/// A `Resolution` as plain text.
#[allow(inconsistent_fields)]
pub enum ResolutionView {
    Done { path: Option<Seq<char>> },
    CheckCached { path: Seq<char> },
    FetchApps { lost: Option<Seq<char>> },
    PlaceFile { image: Seq<char>, name: Seq<char> },
    CheckPlaced { image: Seq<char>, path: Seq<char> },
    Download { image: Seq<char>, path: Seq<char>, keep: bool },
}

impl View for Resolution {
    type V = ResolutionView;

    open spec fn view(&self) -> ResolutionView {
        match *self {
            Resolution::Done { path } => ResolutionView::Done { path: optional(path) },
            Resolution::CheckCached { path } => ResolutionView::CheckCached { path: path@ },
            Resolution::FetchApps { lost } => ResolutionView::FetchApps { lost: optional(lost) },
            Resolution::PlaceFile { image, name } => ResolutionView::PlaceFile {
                image: image@,
                name: name@,
            },
            Resolution::CheckPlaced { image, path } => ResolutionView::CheckPlaced {
                image: image@,
                path: path@,
            },
            Resolution::Download { image, path, keep } => ResolutionView::Download {
                image: image@,
                path: path@,
                keep,
            },
        }
    }
}

impl ResolutionView {
    /// Whether the step sends a request to the server.
    pub open spec fn is_network(self) -> bool {
        self is FetchApps || self is Download
    }
}

/// What came of the step that a `Resolution` asked for.
#[derive(Debug, Clone, PartialEq, Eq)]
pub enum ResolveEvent {
    /// Whether the path that was to be checked is a file.
    File { present: bool },
    /// The applications that the server lists.
    Apps { apps: Vec<AppInfo> },
    /// The path in the cache directory for the file.
    Placed { path: String },
    /// The image was fetched and written.
    Downloaded,
}

/// A `ResolveEvent` as plain text.
pub enum ResolveEventView {
    File { present: bool },
    Apps { apps: Seq<AppInfoView> },
    Placed { path: Seq<char> },
    Downloaded,
}

/// The applications of a list, each as plain text.
pub open spec fn app_views(apps: Seq<AppInfo>) -> Seq<AppInfoView> {
    apps.map_values(|a: AppInfo| a@)
}

impl View for ResolveEvent {
    type V = ResolveEventView;

    open spec fn view(&self) -> ResolveEventView {
        match *self {
            ResolveEvent::File { present } => ResolveEventView::File { present },
            ResolveEvent::Apps { apps } => ResolveEventView::Apps { apps: app_views(apps@) },
            ResolveEvent::Placed { path } => ResolveEventView::Placed { path: path@ },
            ResolveEvent::Downloaded => ResolveEventView::Downloaded,
        }
    }
}

/// Why the search for an image was given up.
#[derive(Debug, Clone, Copy, PartialEq, Eq, Structural)]
pub enum ResolveError {
    /// The location of the image names no file.
    InvalidImage,
    /// The event does not answer the step that was asked for.
    Unexpected,
}

/// The location of the image of application `app_id` among `apps`: that of
/// the first entry with this identifier, unless it is empty.
pub open spec fn image_of(apps: Seq<AppInfoView>, app_id: i64) -> Option<Seq<char>>
    decreases apps.len(),
{
    if apps.len() == 0 {
        None
    } else if apps.first().id == app_id {
        if apps.first().image.len() == 0 {
            None
        } else {
            Some(apps.first().image)
        }
    } else {
        image_of(apps.drop_first(), app_id)
    }
}

/// The first step of the search for the image of `app_id`, given the paths
/// remembered so far.
pub open spec fn started(paths: Map<i64, Option<Seq<char>>>, app_id: i64) -> ResolutionView {
    if paths.contains_key(app_id) {
        match paths[app_id] {
            Some(path) => ResolutionView::CheckCached { path },
            None => ResolutionView::Done { path: None },
        }
    } else {
        ResolutionView::FetchApps { lost: None }
    }
}

/// The step that follows `pending` once `event` has come in, or why there is
/// none.
pub open spec fn advanced(app_id: i64, pending: ResolutionView, event: ResolveEventView) -> Result<
    ResolutionView,
    ResolveError,
> {
    match (pending, event) {
        (ResolutionView::CheckCached { path }, ResolveEventView::File { present }) => if present {
            Ok(ResolutionView::Done { path: Some(path) })
        } else {
            Ok(ResolutionView::FetchApps { lost: Some(path) })
        },
        (ResolutionView::FetchApps { lost }, ResolveEventView::Apps { apps }) => match image_of(
            apps,
            app_id,
        ) {
            None => Ok(ResolutionView::Done { path: None }),
            Some(image) => match lost {
                Some(path) => Ok(ResolutionView::Download { image, path, keep: false }),
                None => match file_name(image) {
                    Some(name) => Ok(ResolutionView::PlaceFile { image, name }),
                    None => Err(ResolveError::InvalidImage),
                },
            },
        },
        (ResolutionView::PlaceFile { image, name }, ResolveEventView::Placed { path }) => Ok(
            ResolutionView::CheckPlaced { image, path },
        ),
        (ResolutionView::CheckPlaced { image, path }, ResolveEventView::File { present }) => if present {
            Ok(ResolutionView::Done { path: Some(path) })
        } else {
            Ok(ResolutionView::Download { image, path, keep: true })
        },
        (ResolutionView::Download { image, path, keep }, ResolveEventView::Downloaded) => Ok(
            ResolutionView::Done { path: Some(path) },
        ),
        _ => Err(ResolveError::Unexpected),
    }
}

/// The paths remembered once `event` has answered `pending`: the outcome of
/// a search that started without a remembered path is kept for `app_id`.
pub open spec fn remembered(
    paths: Map<i64, Option<Seq<char>>>,
    app_id: i64,
    pending: ResolutionView,
    event: ResolveEventView,
) -> Map<i64, Option<Seq<char>>> {
    match (pending, event) {
        (ResolutionView::FetchApps { lost: None }, ResolveEventView::Apps { apps }) => if image_of(
            apps,
            app_id,
        ) is None {
            paths.insert(app_id, None)
        } else {
            paths
        },
        (ResolutionView::CheckPlaced { image, path }, ResolveEventView::File { present: true }) => {
            paths.insert(app_id, Some(path))
        },
        (ResolutionView::Download { image, path, keep: true }, ResolveEventView::Downloaded) => {
            paths.insert(app_id, Some(path))
        },
        _ => paths,
    }
}

/// The result of a step, as plain text.
pub open spec fn step_view(step: Result<Resolution, ResolveError>) -> Result<
    ResolutionView,
    ResolveError,
> {
    match step {
        Ok(next) => Ok(next@),
        Err(e) => Err(e),
    }
}

/// Finds the location of the image of application `app_id` among `apps`.
pub fn app_image(apps: &Vec<AppInfo>, app_id: i64) -> (image: Option<String>)
    ensures
        optional(image) == image_of(app_views(apps@), app_id),
{
    let ghost all = app_views(apps@);
    let mut i: usize = 0;
    assert(all.subrange(0, all.len() as int) =~= all);
    while i < apps.len()
        invariant
            all == app_views(apps@),
            i <= apps.len(),
            image_of(all, app_id) == image_of(all.subrange(i as int, all.len() as int), app_id),
        decreases apps.len() - i,
    {
        let ghost rest = all.subrange(i as int, all.len() as int);
        assert(rest.first() == apps@[i as int]@);
        assert(rest.drop_first() =~= all.subrange(i + 1, all.len() as int));
        if apps[i].id == app_id {
            if apps[i].image.as_str().is_empty() {
                return None;
            } else {
                return Some(apps[i].image.clone());
            }
        }
        i = i + 1;
    }
    None
}

/// The paths of the images fetched so far, by application.
///
/// An application that is known to have no image is remembered too, so that
/// the server is not asked again.
pub struct AppImages {
    paths: HashMap<i64, Option<String>>,
}

impl View for AppImages {
    type V = Map<i64, Option<Seq<char>>>;

    closed spec fn view(&self) -> Map<i64, Option<Seq<char>>> {
        self.paths@.map_values(|path: Option<String>| optional(path))
    }
}

impl AppImages {
    /// A cache that remembers nothing yet.
    pub fn new() -> (images: AppImages)
        ensures
            images@ == Map::<i64, Option<Seq<char>>>::empty(),
    {
        let images = AppImages { paths: HashMap::new() };
        assert(images@ =~= Map::<i64, Option<Seq<char>>>::empty());
        images
    }

    /// Begins the search for the image of application `app_id`.
    ///
    /// An application that is remembered to have no image needs no step at
    /// all; one with a remembered path needs a look at the disk; any other
    /// needs a request to the server.
    pub fn resolve(&self, app_id: i64) -> (first: Resolution)
        ensures
            first@ == started(self@, app_id),
    {
        match self.paths.get(&app_id) {
            Some(Some(path)) => Resolution::CheckCached { path: path.clone() },
            Some(None) => Resolution::Done { path: None },
            None => Resolution::FetchApps { lost: None },
        }
    }

    fn remember(&mut self, app_id: i64, path: Option<String>)
        ensures
            final(self)@ == old(self)@.insert(app_id, optional(path)),
    {
        self.paths.insert(app_id, path);
        assert(final(self)@ =~= old(self)@.insert(app_id, optional(path)));
    }

    /// Takes what came of the step `pending` and says what to do next.
    ///
    /// The outcome of a search that began without a remembered path is kept:
    /// the path of the image, or that the application has none.
    pub fn advance(&mut self, app_id: i64, pending: Resolution, event: ResolveEvent) -> (next:
        Result<Resolution, ResolveError>)
        ensures
            step_view(next) == advanced(app_id, pending@, event@),
            final(self)@ == remembered(old(self)@, app_id, pending@, event@),
    {
        match pending {
            Resolution::CheckCached { path } => match event {
                ResolveEvent::File { present } => {
                    if present {
                        Ok(Resolution::Done { path: Some(path) })
                    } else {
                        Ok(Resolution::FetchApps { lost: Some(path) })
                    }
                },
                _ => Err(ResolveError::Unexpected),
            },
            Resolution::FetchApps { lost } => match event {
                ResolveEvent::Apps { apps } => match app_image(&apps, app_id) {
                    None => {
                        match lost {
                            None => {
                                self.remember(app_id, None);
                            },
                            Some(_) => {},
                        }
                        Ok(Resolution::Done { path: None })
                    },
                    Some(image) => match lost {
                        Some(path) => Ok(Resolution::Download { image, path, keep: false }),
                        None => match file_name_of(image.as_str()) {
                            Some(name) => Ok(Resolution::PlaceFile { image, name }),
                            None => Err(ResolveError::InvalidImage),
                        },
                    },
                },
                _ => Err(ResolveError::Unexpected),
            },
            Resolution::PlaceFile { image, name } => match event {
                ResolveEvent::Placed { path } => Ok(Resolution::CheckPlaced { image, path }),
                _ => Err(ResolveError::Unexpected),
            },
            Resolution::CheckPlaced { image, path } => match event {
                ResolveEvent::File { present } => {
                    if present {
                        self.remember(app_id, Some(path.clone()));
                        Ok(Resolution::Done { path: Some(path) })
                    } else {
                        Ok(Resolution::Download { image, path, keep: true })
                    }
                },
                _ => Err(ResolveError::Unexpected),
            },
            Resolution::Download { image, path, keep } => match event {
                ResolveEvent::Downloaded => {
                    if keep {
                        self.remember(app_id, Some(path.clone()));
                    }
                    Ok(Resolution::Done { path: Some(path) })
                },
                _ => Err(ResolveError::Unexpected),
            },
            Resolution::Done { path } => Err(ResolveError::Unexpected),
        }
    }
}

/// Where a search stands, and which paths are remembered, once `events`
/// have come in one after the other, each answering the step before it.
pub open spec fn searched(
    paths: Map<i64, Option<Seq<char>>>,
    app_id: i64,
    events: Seq<ResolveEventView>,
) -> (Result<ResolutionView, ResolveError>, Map<i64, Option<Seq<char>>>)
    decreases events.len(),
{
    if events.len() == 0 {
        (Ok(started(paths, app_id)), paths)
    } else {
        let (before, known) = searched(paths, app_id, events.drop_last());
        match before {
            Ok(pending) => (
                advanced(app_id, pending, events.last()),
                remembered(known, app_id, pending, events.last()),
            ),
            Err(e) => (Err(e), known),
        }
    }
}

proof fn lemma_search_from_nothing(
    paths: Map<i64, Option<Seq<char>>>,
    app_id: i64,
    events: Seq<ResolveEventView>,
)
    requires
        !paths.contains_key(app_id),
    ensures
        match searched(paths, app_id, events).0 {
            Ok(ResolutionView::Done { path }) => searched(paths, app_id, events).1.contains_key(
                app_id,
            ) && searched(paths, app_id, events).1[app_id] == path,
            Ok(ResolutionView::FetchApps { lost }) => lost is None,
            Ok(ResolutionView::Download { image, path, keep }) => keep,
            Ok(ResolutionView::CheckCached { path }) => false,
            _ => true,
        },
    decreases events.len(),
{
    if events.len() > 0 {
        lemma_search_from_nothing(paths, app_id, events.drop_last());
    }
}

proof fn lemma_search_keeps_what_is_known(
    paths: Map<i64, Option<Seq<char>>>,
    app_id: i64,
    events: Seq<ResolveEventView>,
)
    requires
        paths.contains_key(app_id),
    ensures
        searched(paths, app_id, events).1.contains_key(app_id),
    decreases events.len(),
{
    if events.len() > 0 {
        lemma_search_keeps_what_is_known(paths, app_id, events.drop_last());
    }
}

/// Once a search for the image of an application has come to its end, its
/// outcome is remembered, and the next search for the same application
/// begins without a request to the server: it is over at once where the
/// application has no image, and otherwise looks at the disk. A search
/// that began with nothing remembered leaves exactly what it found.
pub proof fn law_search_is_remembered(
    paths: Map<i64, Option<Seq<char>>>,
    app_id: i64,
    events: Seq<ResolveEventView>,
)
    requires
        searched(paths, app_id, events).0 matches Ok(ResolutionView::Done { .. }),
    ensures
        searched(paths, app_id, events).1.contains_key(app_id),
        !started(searched(paths, app_id, events).1, app_id).is_network(),
        !paths.contains_key(app_id) ==> searched(paths, app_id, events).0 == Ok::<
            _,
            ResolveError,
        >(ResolutionView::Done { path: searched(paths, app_id, events).1[app_id] }),
{
    if paths.contains_key(app_id) {
        lemma_search_keeps_what_is_known(paths, app_id, events);
    } else {
        lemma_search_from_nothing(paths, app_id, events);
    }
}

/// While the file of a remembered image is in its place, a search for it
/// asks the server nothing and ends with the remembered path.
pub proof fn law_remembered_image_is_used(
    paths: Map<i64, Option<Seq<char>>>,
    app_id: i64,
    path: Seq<char>,
)
    requires
        paths.contains_key(app_id),
        paths[app_id] == Some(path),
    ensures
        searched(paths, app_id, seq![ResolveEventView::File { present: true }]) == (
            Ok::<_, ResolveError>(ResolutionView::Done { path: Some(path) }),
            paths,
        ),
        started(paths, app_id) == (ResolutionView::CheckCached { path }),
{
    let events = seq![ResolveEventView::File { present: true }];
    reveal_with_fuel(searched, 2);
    assert(events.drop_last() =~= Seq::<ResolveEventView>::empty());
}

/// When the file of a remembered image has been removed, the search does
/// not fail: it asks the server for the application again, fetches the
/// image to the remembered path, and ends with that path.
pub proof fn law_lost_image_is_fetched_again(
    paths: Map<i64, Option<Seq<char>>>,
    app_id: i64,
    path: Seq<char>,
    apps: Seq<AppInfoView>,
)
    requires
        paths.contains_key(app_id),
        paths[app_id] == Some(path),
        image_of(apps, app_id) is Some,
    ensures
        searched(paths, app_id, seq![ResolveEventView::File { present: false }]).0 == Ok::<
            _,
            ResolveError,
        >(ResolutionView::FetchApps { lost: Some(path) }),
        searched(
            paths,
            app_id,
            seq![ResolveEventView::File { present: false }, ResolveEventView::Apps { apps }],
        ).0 == Ok::<_, ResolveError>(
            ResolutionView::Download { image: image_of(apps, app_id).unwrap(), path, keep: false },
        ),
        searched(
            paths,
            app_id,
            seq![
                ResolveEventView::File { present: false },
                ResolveEventView::Apps { apps },
                ResolveEventView::Downloaded,
            ],
        ) == (Ok::<_, ResolveError>(ResolutionView::Done { path: Some(path) }), paths),
{
    let e1 = seq![ResolveEventView::File { present: false }];
    let e2 = seq![ResolveEventView::File { present: false }, ResolveEventView::Apps { apps }];
    let e3 = seq![
        ResolveEventView::File { present: false },
        ResolveEventView::Apps { apps },
        ResolveEventView::Downloaded,
    ];
    assert(e1.drop_last() =~= Seq::<ResolveEventView>::empty());
    assert(e2.drop_last() =~= e1);
    assert(e3.drop_last() =~= e2);
    reveal_with_fuel(searched, 4);
}

/// When the server lists no image for an application, or an empty one, the
/// search ends without image and this is remembered: the next search for
/// the same application is over at once, with no request at all.
pub proof fn law_missing_image_is_remembered(
    paths: Map<i64, Option<Seq<char>>>,
    app_id: i64,
    apps: Seq<AppInfoView>,
)
    requires
        !paths.contains_key(app_id),
        image_of(apps, app_id) is None,
    ensures
        searched(paths, app_id, seq![ResolveEventView::Apps { apps }]) == (
            Ok::<_, ResolveError>(ResolutionView::Done { path: None }),
            paths.insert(app_id, None),
        ),
        started(paths.insert(app_id, None), app_id) == (ResolutionView::Done { path: None }),
{
    let events = seq![ResolveEventView::Apps { apps }];
    assert(events.drop_last() =~= Seq::<ResolveEventView>::empty());
    reveal_with_fuel(searched, 2);
}

} // verus!
