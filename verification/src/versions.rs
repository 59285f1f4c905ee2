//! Which releases of the game an emulator installation holds, told from what
//! was found on disk.

use crate::text::{contains, has_pattern, to_chars};
use vstd::prelude::*;

verus! {

/// Title id of the digital release.
pub const DIGITAL_TITLE_ID: &'static str = "NPJB00512";

/// Title id of the disc release.
pub const DISC_TITLE_ID: &'static str = "BLJS10250";

/// The releases of the game that were found, by their title ids.
#[allow(non_snake_case)]
#[derive(Clone, Copy, PartialEq, Eq, Structural, Debug)]
pub struct FullBoostVersions {
    pub BLJS10250: bool,
    pub NPJB00512: bool,
}

/// What the search of an emulator installation found.
#[derive(Clone, Copy, PartialEq, Eq, Structural, Debug)]
pub struct Findings {
    /// The parameter file in the digital release's directory names its title.
    pub digital_title: bool,
    /// The digital release's executable is there.
    pub digital_executable: bool,
    /// The parameter file in the disc directory names the disc release.
    pub disc_title: bool,
    /// The directory that the emulator's list of games gives for the disc
    /// release holds a parameter file that names it.
    pub listed_disc_title: bool,
}

impl FullBoostVersions {
    /// The releases found: the digital one where both its parameter file and
    /// its executable are there, the disc one where its parameter file is
    /// found in the disc directory or through the emulator's list of games.
    pub fn from_findings(findings: Findings) -> (versions: Self)
        ensures
            versions.NPJB00512 == (findings.digital_title && findings.digital_executable),
            versions.BLJS10250 == (findings.disc_title || findings.listed_disc_title),
    {
        FullBoostVersions {
            BLJS10250: findings.disc_title || findings.listed_disc_title,
            NPJB00512: findings.digital_title && findings.digital_executable,
        }
    }

    /// Whether any release was found.
    pub fn any(&self) -> (found: bool)
        ensures
            found == (self.BLJS10250 || self.NPJB00512),
    {
        self.BLJS10250 || self.NPJB00512
    }
}

/// Whether the emulator's list of games has to be read: only where the disc
/// directory did not yield the disc release.
pub fn needs_games_list(disc_title: bool) -> (needed: bool)
    ensures
        needed == !disc_title,
{
    !disc_title
}

/// What the parameter tool's first line says of a title id: the line, where
/// there is one, holds the id.
pub open spec fn names_title(first_line: Option<Seq<char>>, title_id: Seq<char>) -> bool {
    match first_line {
        Some(line) => contains(line, title_id),
        None => false,
    }
}

/// Whether the first line that the parameter tool wrote names `title_id`.
pub fn title_id_matches(first_line: Option<&str>, title_id: &str) -> (found: bool)
    ensures
        found == names_title(
            match first_line {
                Some(line) => Some(line@),
                None => None,
            },
            title_id@,
        ),
{
    match first_line {
        Some(line) => {
            let text = to_chars(line);
            let id = to_chars(title_id);
            has_pattern(text.as_slice(), id.as_slice())
        },
        None => false,
    }
}

} // verus!
