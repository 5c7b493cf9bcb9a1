//! Aliases on disk: the copy of the launcher and the descriptor beside it.

use crate::error::{Error, ErrorView};
use crate::paths::{
    contains_separator, extension, extension_of, has_separator, with_extension,
    with_extension_of, with_file_name, with_file_name_of, DESCRIPTOR_EXTENSION,
};
use crate::text::same_text;
use vstd::prelude::*;
use vstd::string::*;

verus! {

/// File name, without extension, of the launcher for console programs.
pub const CONSOLE_LAUNCHER: &'static str = "cmdlink";

/// File name, without extension, of the launcher for programs with a window.
pub const WINDOW_LAUNCHER: &'static str = "gcmdlink";

/// The two files that make an alias.
#[derive(Debug, Clone, PartialEq, Eq)]
pub struct Alias {
    /// The copy of the launcher that carries the alias's name.
    pub alias_path: String,
    /// The descriptor that tells the launcher what to do.
    pub meta_path: String,
}

/// The launchers that aliases are copies of.
#[derive(Debug, Clone, PartialEq, Eq)]
pub struct CmdlinkExecutable {
    /// The launcher for console programs.
    pub cui: String,
    /// The launcher for programs with a window of their own.
    pub gui: String,
}

/// What the tooling makes of a file in a directory of programs.
#[derive(Debug, Clone, Copy, PartialEq, Eq, Structural)]
pub enum ProgramKind {
    /// A program that gets an alias.
    Executable,
    /// A batch file, for which there are no aliases.
    Script,
    /// Anything else, which is passed over.
    Other,
}

/// Whether `found`, the extension of a path, is the one every descriptor has.
pub open spec fn is_descriptor_extension(found: Option<Seq<char>>) -> bool {
    found == Some(DESCRIPTOR_EXTENSION@)
}

/// Whether `found`, the extension of a path, is the one executables have on
/// this platform: `os_ext`, where no extension at all counts as the empty one.
pub open spec fn is_executable_extension(found: Option<Seq<char>>, os_ext: Seq<char>) -> bool {
    match found {
        Some(ext) => ext == os_ext,
        None => os_ext.len() == 0,
    }
}

/// What a file with the extension `found` is to the tooling.
pub open spec fn kind_of(found: Option<Seq<char>>) -> ProgramKind {
    match found {
        Some(ext) => if ext == "exe"@ {
            ProgramKind::Executable
        } else if ext == "cmd"@ || ext == "bat"@ {
            ProgramKind::Script
        } else {
            ProgramKind::Other
        },
        None => ProgramKind::Other,
    }
}

/// Whether an extension is that of a descriptor.
pub fn has_descriptor_extension(found: &Option<String>) -> (yes: bool)
    ensures
        yes == is_descriptor_extension(found.deep_view()),
{
    match found {
        Some(ext) => same_text(ext.as_str(), DESCRIPTOR_EXTENSION),
        None => false,
    }
}

/// Whether an extension is that of the executables of this platform.
pub fn has_executable_extension(found: &Option<String>, os_ext: &str) -> (yes: bool)
    ensures
        yes == is_executable_extension(found.deep_view(), os_ext@),
{
    match found {
        Some(ext) => same_text(ext.as_str(), os_ext),
        None => os_ext.unicode_len() == 0,
    }
}

/// What a file with the extension `found` is to the tooling.
pub fn classify_program(found: &Option<String>) -> (kind: ProgramKind)
    ensures
        kind == kind_of(found.deep_view()),
{
    match found {
        Some(ext) => {
            if same_text(ext.as_str(), "exe") {
                ProgramKind::Executable
            } else if same_text(ext.as_str(), "cmd") || same_text(ext.as_str(), "bat") {
                ProgramKind::Script
            } else {
                ProgramKind::Other
            }
        },
        None => ProgramKind::Other,
    }
}

/// Whether the two paths of `alias` belong together: the descriptor lies
/// where the launcher at `alias_path` looks for it.
pub open spec fn is_alias(alias: Alias) -> bool {
    alias.meta_path@ == with_extension_of(alias.alias_path@, DESCRIPTOR_EXTENSION@)
}

/// Whether the descriptor at `meta_path` belongs to an alias where
/// executables have the extension `os_ext`: it has the extension of
/// descriptors, `os_ext` can be an extension, and the launcher that has
/// `os_ext` in its place looks for its descriptor at `meta_path`.
pub open spec fn names_descriptor(meta_path: Seq<char>, os_ext: Seq<char>) -> bool {
    &&& is_descriptor_extension(extension_of(meta_path))
    &&& !has_separator(os_ext)
    &&& with_extension_of(with_extension_of(meta_path, os_ext), DESCRIPTOR_EXTENSION@)
        == meta_path
}

/// Where the launcher `name` lies beside the tool `exe`: under that name,
/// with `os_ext` for an extension if that can be one.
pub open spec fn launcher_path(exe: Seq<char>, name: Seq<char>, os_ext: Seq<char>) -> Seq<char> {
    if has_separator(os_ext) {
        with_file_name_of(exe, name)
    } else {
        with_extension_of(with_file_name_of(exe, name), os_ext)
    }
}

/// The extension that `found` stands for: itself, or the empty one.
pub open spec fn extension_or_none(found: Option<Seq<char>>) -> Seq<char> {
    match found {
        Some(ext) => ext,
        None => Seq::empty(),
    }
}

fn invalid_extension(path: String) -> (r: Result<Alias, Error>)
    ensures
        r matches Err(e) && e@ == (ErrorView::InvalidExtension { path: path@ }),
{
    Err(Error::InvalidExtension { path })
}

impl Alias {
    /// The alias whose launcher lies at `alias_path`, which is kept as it
    /// is. There is one exactly if the path has `os_ext`, the extension of
    /// executables on this platform, for its extension.
    pub fn try_from_alias_path(alias_path: String, os_ext: &str) -> (r: Result<Alias, Error>)
        ensures
            match r {
                Ok(alias) => {
                    &&& is_executable_extension(extension_of(alias_path@), os_ext@)
                    &&& alias.alias_path@ == alias_path@
                    &&& is_alias(alias)
                },
                Err(e) => {
                    &&& !is_executable_extension(extension_of(alias_path@), os_ext@)
                    &&& e@ == (ErrorView::InvalidExtension { path: alias_path@ })
                },
            },
    {
        let found = extension(alias_path.as_str());
        if !has_executable_extension(&found, os_ext) {
            return invalid_extension(alias_path);
        }
        Ok(Alias::around(alias_path))
    }

    /// The alias whose descriptor lies at `meta_path`. There is one exactly
    /// if the path has [`DESCRIPTOR_EXTENSION`] for its extension, `os_ext`
    /// can be an extension, and the launcher with `os_ext` in place of that
    /// extension looks for its descriptor at `meta_path`.
    pub fn try_from_meta_path(meta_path: String, os_ext: &str) -> (r: Result<Alias, Error>)
        ensures
            match r {
                Ok(alias) => {
                    &&& names_descriptor(meta_path@, os_ext@)
                    &&& alias.alias_path@ == with_extension_of(meta_path@, os_ext@)
                    &&& alias.meta_path@ == meta_path@
                    &&& is_alias(alias)
                },
                Err(e) => {
                    &&& !names_descriptor(meta_path@, os_ext@)
                    &&& e@ == (ErrorView::InvalidExtension { path: meta_path@ })
                },
            },
    {
        let found = extension(meta_path.as_str());
        if !has_descriptor_extension(&found) || contains_separator(os_ext) {
            return invalid_extension(meta_path);
        }
        let alias = Alias::around(with_extension(meta_path.as_str(), os_ext));
        if !same_text(alias.meta_path.as_str(), meta_path.as_str()) {
            return invalid_extension(meta_path);
        }
        Ok(alias)
    }

    /// The alias whose launcher is `stem_path` with `os_ext` for an
    /// extension. There is such an alias unless `os_ext` holds a path
    /// separator, which no extension can.
    pub fn try_from_stem_path(stem_path: String, os_ext: &str) -> (r: Result<Alias, Error>)
        ensures
            r is Ok <==> !has_separator(os_ext@),
            r matches Err(e) ==> e@ == (ErrorView::InvalidExtension { path: stem_path@ }),
            r matches Ok(alias) ==> alias.alias_path@ == with_extension_of(stem_path@, os_ext@)
                && is_alias(alias),
    {
        if contains_separator(os_ext) {
            return invalid_extension(stem_path);
        }
        Alias::from_stem(stem_path, os_ext)
    }

    fn from_stem(stem_path: String, os_ext: &str) -> (r: Result<Alias, Error>)
        requires
            !has_separator(os_ext@),
        ensures
            r matches Ok(alias) && alias.alias_path@ == with_extension_of(stem_path@, os_ext@)
                && is_alias(alias),
    {
        Ok(Alias::around(with_extension(stem_path.as_str(), os_ext)))
    }

    /// The alias of the launcher at `alias_path`: its descriptor lies where
    /// that launcher looks for it.
    pub fn around(alias_path: String) -> (alias: Alias)
        ensures
            alias.alias_path@ == alias_path@,
            is_alias(alias),
    {
        proof {
            reveal_strlit("meta");
        }
        let meta_path = with_extension(alias_path.as_str(), DESCRIPTOR_EXTENSION);
        Alias { alias_path, meta_path }
    }
}

impl CmdlinkExecutable {
    /// The launchers that lie beside the tool `exe`, under their own names
    /// and with the extension `os_ext`, or with none where `os_ext` can be no
    /// extension.
    pub fn beside(exe: &str, os_ext: &str) -> (found: CmdlinkExecutable)
        ensures
            found.cui@ == launcher_path(exe@, CONSOLE_LAUNCHER@, os_ext@),
            found.gui@ == launcher_path(exe@, WINDOW_LAUNCHER@, os_ext@),
    {
        let cui = with_file_name(exe, CONSOLE_LAUNCHER);
        let gui = with_file_name(exe, WINDOW_LAUNCHER);
        if contains_separator(os_ext) {
            CmdlinkExecutable { cui, gui }
        } else {
            CmdlinkExecutable {
                cui: with_extension(cui.as_str(), os_ext),
                gui: with_extension(gui.as_str(), os_ext),
            }
        }
    }

    /// The same launchers where there is a launcher for programs with a
    /// window; the console launcher in both places where there is none.
    pub fn or_console(self, window_launcher_exists: bool) -> (found: CmdlinkExecutable)
        ensures
            found.cui@ == self.cui@,
            found.gui@ == if window_launcher_exists {
                self.gui@
            } else {
                self.cui@
            },
    {
        if window_launcher_exists {
            self
        } else {
            let gui = self.cui.clone();
            CmdlinkExecutable { cui: self.cui, gui }
        }
    }

    /// The launcher that an alias of a program is a copy of: the one for
    /// programs with a window if `gui` is set, the one for console programs
    /// if not.
    pub fn launcher_for(&self, gui: bool) -> (launcher: &String)
        ensures
            launcher@ == if gui {
                self.gui@
            } else {
                self.cui@
            },
    {
        if gui {
            &self.gui
        } else {
            &self.cui
        }
    }
}

/// The extension of executables on the platform of the executable `exe`: its
/// own, or the empty one if it has none.
pub fn get_os_ext(exe: &str) -> (os_ext: String)
    ensures
        os_ext@ == extension_or_none(extension_of(exe@)),
{
    match extension(exe) {
        Some(ext) => ext,
        None => String::new(),
    }
}

} // verus!
