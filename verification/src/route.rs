//! The two directories of a route, and the move of one entry between them.

use crate::path::joined;
use crate::path::join;
use vstd::prelude::*;

verus! {

/// Why the library refuses to go on.
#[derive(Debug, Clone, Copy, PartialEq, Eq, Structural)]
pub enum RouteError {
    /// The source or the destination is not an existing directory. Nothing is watched.
    InvalidInput,
    /// An event that calls for a reroute carries no name.
    MissingName,
    /// The destination path is taken. Nothing is moved and nothing overwritten.
    AlreadyExists,
}

/// Where entries come from and where they go.
#[derive(Debug, Clone, PartialEq, Eq)]
pub struct ReRoute {
    /// The watched source directory.
    pub from: Vec<u8>,
    /// The destination directory.
    pub to: Vec<u8>,
}

/// The move of one entry: its path in the source and its path in the destination.
#[derive(Debug, Clone, PartialEq, Eq)]
pub struct MovePlan {
    /// The path to move.
    pub from: Vec<u8>,
    /// The path to move it to.
    pub to: Vec<u8>,
}

impl ReRoute {
    /// A route between two given directories.
    pub fn new(from: Vec<u8>, to: Vec<u8>) -> (route: ReRoute)
        ensures
            route.from == from,
            route.to == to,
    {
        ReRoute { from, to }
    }

    /// A route from optional choices and the values that stand in for a missing one.
    ///
    /// A chosen directory wins. Without a choice the source is `downloads`, the
    /// configured download directory, and the destination is `current_dir`. The caller
    /// has to supply the stand-in for each choice that is missing.
    pub fn default(
        from: Option<Vec<u8>>,
        to: Option<Vec<u8>>,
        downloads: Option<Vec<u8>>,
        current_dir: Option<Vec<u8>>,
    ) -> (route: ReRoute)
        requires
            from is None ==> downloads is Some,
            to is None ==> current_dir is Some,
        ensures
            route.from == if from is Some { from->0 } else { downloads->0 },
            route.to == if to is Some { to->0 } else { current_dir->0 },
    {
        let source = match from {
            Some(dir) => dir,
            None => downloads.unwrap(),
        };
        let dest = match to {
            Some(dir) => dir,
            None => current_dir.unwrap(),
        };
        ReRoute { from: source, to: dest }
    }

    /// Whether watching may start, given what the file system says of the two paths.
    ///
    /// Both have to be existing directories. Otherwise the route is invalid, and
    /// asking again will not help.
    pub fn check_directories(&self, from_is_dir: bool, to_is_dir: bool) -> (checked: Result<
        (),
        RouteError,
    >)
        ensures
            checked == if from_is_dir && to_is_dir {
                Ok::<(), RouteError>(())
            } else {
                Err::<(), RouteError>(RouteError::InvalidInput)
            },
    {
        if !from_is_dir || !to_is_dir {
            Err(RouteError::InvalidInput)
        } else {
            Ok(())
        }
    }

    /// The move that takes the entry called `name` along this route.
    pub fn plan(&self, name: &Vec<u8>) -> (plan: MovePlan)
        ensures
            plan.from@ == joined(self.from@, name@),
            plan.to@ == joined(self.to@, name@),
    {
        MovePlan { from: join(&self.from, name), to: join(&self.to, name) }
    }
}

/// Whether a move may be tried, given whether its destination exists: never onto an
/// existing path.
pub open spec fn destination_checked(to_exists: bool) -> Result<(), RouteError> {
    if to_exists {
        Err(RouteError::AlreadyExists)
    } else {
        Ok(())
    }
}

impl MovePlan {
    /// Whether the move may be tried, given whether its destination exists.
    ///
    /// An existing destination is never overwritten: the move is refused before
    /// anything is touched.
    pub fn check_destination(&self, to_exists: bool) -> (checked: Result<(), RouteError>)
        ensures
            checked == destination_checked(to_exists),
    {
        if to_exists {
            Err(RouteError::AlreadyExists)
        } else {
            Ok(())
        }
    }
}

} // verus!
