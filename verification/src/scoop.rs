//! The command lines that are handed to Scoop.

use crate::text::{opt_str};
use vstd::prelude::*;
use vstd::string::*;

verus! {

/// The operations that Scoop is asked for.
#[derive(Debug, Clone, Copy, PartialEq, Eq, Structural)]
pub enum ScoopOp {
    Install,
    Uninstall,
    Update,
    UpdateForce,
    ClearCache,
    UpdateAll,
}

/// Whether the operation acts on one package, which then has to be named.
pub open spec fn needs_package(op: ScoopOp) -> bool {
    op != ScoopOp::UpdateAll
}

/// The message for an operation that lacks its package name.
pub open spec fn missing_package_message(op: ScoopOp) -> Seq<char> {
    match op {
        ScoopOp::Install => "A package name is required to install."@,
        ScoopOp::Uninstall => "A package name is required to uninstall."@,
        ScoopOp::Update => "A package name is required to update."@,
        ScoopOp::UpdateForce => "A package name is required to force update."@,
        ScoopOp::ClearCache => "A package name is required to clear the cache."@,
        ScoopOp::UpdateAll => Seq::empty(),
    }
}

/// The command line of an operation on the package `package`.
pub open spec fn command_line(op: ScoopOp, package: Seq<char>, bucket: Option<Seq<char>>) -> Seq<
    char,
> {
    match op {
        ScoopOp::Install => match bucket {
            Some(b) => "scoop install "@ + b + "/"@ + package,
            None => "scoop install "@ + package,
        },
        ScoopOp::Uninstall => "scoop uninstall "@ + package,
        ScoopOp::Update => "scoop update "@ + package,
        ScoopOp::UpdateForce => "scoop update "@ + package + " --force"@,
        ScoopOp::ClearCache => "scoop cache rm "@ + package,
        ScoopOp::UpdateAll => "scoop update *"@,
    }
}

/// What building a command yields: the command line, or the message that
/// asks for the package name.
pub open spec fn built_command(op: ScoopOp, package: Option<Seq<char>>, bucket: Option<Seq<char>>)
    -> Result<Seq<char>, Seq<char>> {
    if needs_package(op) {
        match package {
            Some(name) => Ok(command_line(op, name, bucket)),
            None => Err(missing_package_message(op)),
        }
    } else {
        Ok(command_line(op, Seq::empty(), bucket))
    }
}

fn two(head: &str, tail: &str) -> (r: String)
    ensures
        r@ == head@ + tail@,
{
    let mut out = head.to_owned();
    out.append(tail);
    out
}

/// Builds the Scoop command for an operation. Every operation but
/// `UpdateAll` needs a package name and fails without one; only `Install`
/// looks at the bucket.
pub fn build_scoop_cmd(op: ScoopOp, package: Option<&str>, bucket: Option<&str>) -> (r: Result<
    String,
    String,
>)
    ensures
        match r {
            Ok(command) => built_command(op, opt_str(package), opt_str(bucket)) == Ok::<
                Seq<char>,
                Seq<char>,
            >(command@),
            Err(message) => built_command(op, opt_str(package), opt_str(bucket)) == Err::<
                Seq<char>,
                Seq<char>,
            >(message@),
        },
{
    match op {
        ScoopOp::Install => match package {
            Some(pkg) => match bucket {
                Some(b) => {
                    let mut command = two("scoop install ", b);
                    command.append("/");
                    command.append(pkg);
                    Ok(command)
                },
                None => Ok(two("scoop install ", pkg)),
            },
            None => Err("A package name is required to install.".to_owned()),
        },
        ScoopOp::Uninstall => match package {
            Some(pkg) => Ok(two("scoop uninstall ", pkg)),
            None => Err("A package name is required to uninstall.".to_owned()),
        },
        ScoopOp::Update => match package {
            Some(pkg) => Ok(two("scoop update ", pkg)),
            None => Err("A package name is required to update.".to_owned()),
        },
        ScoopOp::UpdateForce => match package {
            Some(pkg) => {
                let mut command = two("scoop update ", pkg);
                command.append(" --force");
                Ok(command)
            },
            None => Err("A package name is required to force update.".to_owned()),
        },
        ScoopOp::ClearCache => match package {
            Some(pkg) => Ok(two("scoop cache rm ", pkg)),
            None => Err("A package name is required to clear the cache.".to_owned()),
        },
        ScoopOp::UpdateAll => Ok("scoop update *".to_owned()),
    }
}

/// The name under which a running operation is shown.
pub open spec fn operation_title(op: ScoopOp, package: Option<Seq<char>>) -> Result<
    Seq<char>,
    Seq<char>,
> {
    match op {
        ScoopOp::UpdateAll => Ok("Updating all packages"@),
        _ => match package {
            Some(name) => Ok(
                (match op {
                    ScoopOp::Install => "Installing "@,
                    ScoopOp::Uninstall => "Uninstalling "@,
                    ScoopOp::Update => "Updating "@,
                    ScoopOp::UpdateForce => "Force updating "@,
                    _ => "Clearing cache for "@,
                }) + name,
            ),
            None => Err("Invalid operation or missing package name."@),
        },
    }
}

/// Names a running operation for display.
pub fn operation_name(op: ScoopOp, package: Option<&str>) -> (r: Result<String, String>)
    ensures
        match r {
            Ok(title) => operation_title(op, opt_str(package)) == Ok::<Seq<char>, Seq<char>>(
                title@,
            ),
            Err(message) => operation_title(op, opt_str(package)) == Err::<Seq<char>, Seq<char>>(
                message@,
            ),
        },
{
    match op {
        ScoopOp::UpdateAll => Ok("Updating all packages".to_owned()),
        _ => match package {
            Some(pkg) => {
                let head = match op {
                    ScoopOp::Install => "Installing ",
                    ScoopOp::Uninstall => "Uninstalling ",
                    ScoopOp::Update => "Updating ",
                    ScoopOp::UpdateForce => "Force updating ",
                    _ => "Clearing cache for ",
                };
                Ok(two(head, pkg))
            },
            None => Err("Invalid operation or missing package name.".to_owned()),
        },
    }
}

} // verus!
