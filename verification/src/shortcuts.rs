//! The shortcuts that Scoop puts into the start menu.

use crate::text::{chars_of, has_prefix, opt_text, push_char, starts_with, str_eq};
use vstd::prelude::*;
use vstd::string::*;

verus! {

/// One start-menu shortcut of an installed app.
#[derive(Debug)]
pub struct ScoopAppShortcut {
    /// The file name of the shortcut without its extension.
    pub name: String,
    /// The name with every underscore replaced by a space.
    pub display_name: String,
    pub target_path: String,
    pub working_directory: String,
    pub icon_path: Option<String>,
}

/// The mathematical value of a `ScoopAppShortcut`.
pub struct ShortcutView {
    pub name: Seq<char>,
    pub display_name: Seq<char>,
    pub target_path: Seq<char>,
    pub working_directory: Seq<char>,
    pub icon_path: Option<Seq<char>>,
}

impl View for ScoopAppShortcut {
    type V = ShortcutView;

    open spec fn view(&self) -> ShortcutView {
        ShortcutView {
            name: self.name@,
            display_name: self.display_name@,
            target_path: self.target_path@,
            working_directory: self.working_directory@,
            icon_path: opt_text(self.icon_path),
        }
    }
}

impl DeepView for ScoopAppShortcut {
    type V = ShortcutView;

    open spec fn deep_view(&self) -> ShortcutView {
        self@
    }
}

impl Clone for ScoopAppShortcut {
    fn clone(&self) -> (r: Self)
        ensures
            r == *self,
    {
        ScoopAppShortcut {
            name: self.name.clone(),
            display_name: self.display_name.clone(),
            target_path: self.target_path.clone(),
            working_directory: self.working_directory.clone(),
            icon_path: match &self.icon_path {
                Some(path) => Some(path.clone()),
                None => None,
            },
        }
    }
}

/// What a shortcut file says.
#[derive(Debug)]
pub struct ShortcutInfo {
    pub target_path: String,
    pub working_directory: String,
    pub icon_path: Option<String>,
}

/// The fields of a shortcut file, as they were read.
#[derive(Debug)]
pub struct LinkData {
    /// The target, relative to the directory of the shortcut.
    pub relative_path: Option<String>,
    /// The target as a path on this machine.
    pub local_base_path: Option<String>,
    pub working_dir: Option<String>,
    pub icon_location: Option<String>,
}

/// A text that may be missing, empty where it is.
pub open spec fn or_empty(s: Option<String>) -> Seq<char> {
    match s {
        Some(text) => text@,
        None => Seq::empty(),
    }
}

/// The target that a shortcut names: its relative path, or where that is
/// missing or empty its path on this machine; empty where it has neither.
pub open spec fn link_target_of(link: LinkData) -> Seq<char> {
    if or_empty(link.relative_path).len() > 0 {
        or_empty(link.relative_path)
    } else {
        or_empty(link.local_base_path)
    }
}

/// Whether a target is relative to the directory of its shortcut: it begins
/// with two dots.
pub open spec fn is_relative(target: Seq<char>) -> bool {
    has_prefix(target, ".."@)
}

/// The directory in which the target of a shortcut is started: the one that
/// the shortcut names; else the parent of the target, where there is a
/// target and it has one; else the user's profile; last `C:\`.
pub open spec fn working_directory_of(
    link: LinkData,
    target: Seq<char>,
    target_parent: Option<String>,
    user_profile: Option<String>,
) -> Seq<char> {
    if or_empty(link.working_dir).len() > 0 {
        or_empty(link.working_dir)
    } else if target.len() > 0 && target_parent is Some {
        target_parent->0@
    } else {
        match user_profile {
            Some(profile) => profile@,
            None => "C:\\"@,
        }
    }
}

/// Returns the target that a shortcut names.
pub fn link_target(link: &LinkData) -> (r: String)
    ensures
        r@ == link_target_of(*link),
{
    match &link.relative_path {
        Some(path) => {
            if !path.as_str().is_empty() {
                return path.clone();
            }
        },
        None => {},
    }
    match &link.local_base_path {
        Some(path) => path.clone(),
        None => String::new(),
    }
}

/// Whether a target has to be resolved against the directory of its
/// shortcut.
pub fn is_relative_target(target: &str) -> (r: bool)
    ensures
        r == is_relative(target@),
{
    starts_with(target, "..")
}

/// Puts together what a shortcut says. `target_path` is the target of the
/// shortcut, resolved where it was relative and could be; `target_parent` is
/// the parent directory of that path.
pub fn parse_shortcut(
    link: LinkData,
    target_path: String,
    target_parent: Option<String>,
    user_profile: Option<String>,
) -> (r: ShortcutInfo)
    ensures
        r.target_path@ == target_path@,
        r.working_directory@ == working_directory_of(
            link,
            target_path@,
            target_parent,
            user_profile,
        ),
        opt_text(r.icon_path) == opt_text(link.icon_location),
{
    let named = match &link.working_dir {
        Some(dir) => !dir.as_str().is_empty(),
        None => false,
    };
    let working_directory = if named {
        match link.working_dir {
            Some(dir) => dir,
            None => String::new(),
        }
    } else if !target_path.as_str().is_empty() && target_parent.is_some() {
        match target_parent {
            Some(parent) => parent,
            None => String::new(),
        }
    } else {
        match user_profile {
            Some(profile) => profile,
            None => "C:\\".to_owned(),
        }
    };
    ShortcutInfo { target_path, working_directory, icon_path: link.icon_location }
}

/// One file of the start-menu directory.
#[derive(Debug)]
pub struct ShortcutFile {
    /// The file name without its extension; `None` where there is none or it
    /// is not valid Unicode.
    pub file_stem: Option<String>,
    /// The extension of the file name; `None` where there is none or it is
    /// not valid Unicode.
    pub extension: Option<String>,
    /// What the file says; `None` where it does not parse as a shortcut.
    pub link: Option<ShortcutInfo>,
}

/// The extension of shortcut files.
pub open spec fn shortcut_extension() -> Seq<char> {
    seq!['l', 'n', 'k']
}

/// `name` with every underscore replaced by a space.
pub open spec fn display_text(name: Seq<char>) -> Seq<char> {
    name.map_values(
        |c: char|
            if c == '_' {
                ' '
            } else {
                c
            },
    )
}

/// The shortcut that a file stands for: none unless it has the extension
/// `lnk`, a stem and parses.
pub open spec fn shortcut_of(file: ShortcutFile) -> Seq<ShortcutView> {
    if opt_text(file.extension) == Some(shortcut_extension()) && file.file_stem is Some
        && file.link is Some {
        seq![
            ShortcutView {
                name: file.file_stem->0@,
                display_name: display_text(file.file_stem->0@),
                target_path: file.link->0.target_path@,
                working_directory: file.link->0.working_directory@,
                icon_path: opt_text(file.link->0.icon_path),
            },
        ]
    } else {
        Seq::empty()
    }
}

/// The shortcuts that the files stand for, in the order of the files.
pub open spec fn shortcuts_of(files: Seq<ShortcutFile>) -> Seq<ShortcutView>
    decreases files.len(),
{
    if files.len() == 0 {
        Seq::empty()
    } else {
        shortcuts_of(files.drop_last()) + shortcut_of(files.last())
    }
}

/// Returns `name` with every underscore replaced by a space.
pub fn display_name(name: &str) -> (r: String)
    ensures
        r@ == display_text(name@),
{
    let chars = chars_of(name);
    let mut out = String::new();
    let mut i: usize = 0;
    while i < chars.len()
        invariant
            i <= chars.len(),
            chars@ == name@,
            out@ == display_text(name@.take(i as int)),
        decreases chars.len() - i,
    {
        let c = chars[i];
        push_char(
            &mut out,
            if c == '_' {
                ' '
            } else {
                c
            },
        );
        i += 1;
    }
    out
}

/// Lists the shortcuts among the files of the start-menu directory. A file
/// that is no shortcut, or does not parse, is left out.
pub fn get_scoop_app_shortcuts(files: &Vec<ShortcutFile>) -> (r: Vec<ScoopAppShortcut>)
    ensures
        r.deep_view() == shortcuts_of(files@),
{
    let mut out: Vec<ScoopAppShortcut> = Vec::new();
    let mut k: usize = 0;
    while k < files.len()
        invariant
            k <= files.len(),
            out.deep_view() == shortcuts_of(files@.take(k as int)),
        decreases files.len() - k,
    {
        proof {
            let now = files@.take(k + 1);
            assert(now.drop_last() =~= files@.take(k as int));
            reveal_strlit("lnk");
            assert("lnk"@ =~= shortcut_extension());
        }
        let file = &files[k];
        let is_link = match &file.extension {
            Some(ext) => str_eq(ext.as_str(), "lnk"),
            None => false,
        };
        if is_link {
            match &file.file_stem {
                Some(stem) => match &file.link {
                    Some(link) => {
                        out.push(
                            ScoopAppShortcut {
                                name: stem.clone(),
                                display_name: display_name(stem.as_str()),
                                target_path: link.target_path.clone(),
                                working_directory: link.working_directory.clone(),
                                icon_path: match &link.icon_path {
                                    Some(path) => Some(path.clone()),
                                    None => None,
                                },
                            },
                        );
                    },
                    None => {},
                },
                None => {},
            }
        }
        k += 1;
    }
    assert(files@.take(files.len() as int) =~= files@);
    out
}

} // verus!
