//! Directories exposed to the guest, and the builder that checks them.
use vstd::prelude::*;
use crate::error::WasiStateCreationError;
use crate::text::{has_byte, str_contains_byte, utf8};

verus! {

/// `s` with every leading `/` removed.
pub open spec fn without_leading_slashes(s: Seq<char>) -> Seq<char>
    decreases s.len(),
{
    if s.len() > 0 && s[0] == '/' {
        without_leading_slashes(s.drop_first())
    } else {
        s
    }
}

/// Relies on str::trim_start_matches with a `char` pattern: it removes every
/// leading occurrence of that character and nothing else.
#[verifier::external_body]
fn trim_leading_slashes(s: &str) -> (r: String)
    ensures
        r@ == without_leading_slashes(s@),
{
    s.trim_start_matches('/').to_string()
}

/// A directory exposed to the guest, as assembled by [`PreopenDirBuilder::build`].
#[derive(Debug, Clone)]
pub struct PreopenedDir {
    pub path: String,
    pub alias: Option<String>,
    pub read: bool,
    pub write: bool,
    pub create: bool,
}

impl PreopenedDir {
    /// A field-by-field copy.
    pub fn duplicate(&self) -> (r: Self)
        ensures
            r == *self,
    {
        PreopenedDir {
            path: self.path.clone(),
            alias: match &self.alias {
                Some(a) => Some(a.clone()),
                None => None,
            },
            read: self.read,
            write: self.write,
            create: self.create,
        }
    }
}

/// An element-wise copy of a list of directories.
pub fn copy_dirs(v: &Vec<PreopenedDir>) -> (r: Vec<PreopenedDir>)
    ensures
        r@ == v@,
{
    let mut r: Vec<PreopenedDir> = Vec::new();
    let mut i: usize = 0;
    while i < v.len()
        invariant
            0 <= i <= v@.len(),
            r@ == v@.subrange(0, i as int),
        decreases v@.len() - i,
    {
        r.push(v[i].duplicate());
        i = i + 1;
        assert(r@ =~= v@.subrange(0, i as int));
    }
    assert(r@ =~= v@);
    r
}

pub open spec fn dirs_view(d: Seq<PreopenedDir>) -> Seq<PreopenedDirView> {
    d.map_values(|x: PreopenedDir| x@)
}

/// Mathematical view of a [`PreopenedDir`].
pub struct PreopenedDirView {
    pub path: Seq<char>,
    pub alias: Option<Seq<char>>,
    pub read: bool,
    pub write: bool,
    pub create: bool,
}

impl View for PreopenedDir {
    type V = PreopenedDirView;

    open spec fn view(&self) -> PreopenedDirView {
        PreopenedDirView {
            path: self.path@,
            alias: match self.alias {
                Some(a) => Some(a@),
                None => None,
            },
            read: self.read,
            write: self.write,
            create: self.create,
        }
    }
}

impl PreopenedDirView {
    /// What every assembled preopen satisfies: a non-empty host path, a
    /// nul-free alias, one permission at least, and `create` only with `write`.
    pub open spec fn wf(self) -> bool {
        &&& self.path.len() > 0
        &&& (self.read || self.write || self.create)
        &&& (self.create ==> self.write)
        &&& (self.alias matches Some(a) ==> !has_byte(utf8(a), 0u8))
    }

    /// The name under which the guest sees this directory.
    pub open spec fn guest_name(self) -> Seq<char> {
        match self.alias {
            Some(a) => a,
            None => self.path,
        }
    }
}

/// Builder for one preopened directory.
#[derive(Debug, Clone)]
pub struct PreopenDirBuilder {
    pub path: Option<String>,
    pub alias: Option<String>,
    pub read: bool,
    pub write: bool,
    pub create: bool,
}

/// Mathematical view of a [`PreopenDirBuilder`].
pub struct PreopenDirBuilderView {
    pub path: Option<Seq<char>>,
    pub alias: Option<Seq<char>>,
    pub read: bool,
    pub write: bool,
    pub create: bool,
}

pub open spec fn opt_view(o: Option<String>) -> Option<Seq<char>> {
    match o {
        Some(s) => Some(s@),
        None => None,
    }
}

impl View for PreopenDirBuilder {
    type V = PreopenDirBuilderView;

    open spec fn view(&self) -> PreopenDirBuilderView {
        PreopenDirBuilderView {
            path: opt_view(self.path),
            alias: opt_view(self.alias),
            read: self.read,
            write: self.write,
            create: self.create,
        }
    }
}

pub open spec fn alias_error_message(alias: Seq<char>) -> Seq<char> {
    "Alias \""@ + alias + "\" contains a nul byte"@
}

pub open spec fn no_permission_message() -> Seq<char> {
    "Preopened directories must have at least one of read, write, create permissions set"@
}

pub open spec fn no_path_message() -> Seq<char> {
    "Preopened directories must point to a host directory"@
}

impl PreopenDirBuilderView {
    /// Whether building succeeds.
    pub open spec fn buildable(self) -> bool {
        &&& (self.read || self.write || self.create)
        &&& (self.path matches Some(p) && p.len() > 0)
        &&& (self.alias matches Some(a) ==> !has_byte(utf8(a), 0u8))
    }

    /// The directory that a successful build yields.
    pub open spec fn built(self) -> PreopenedDirView {
        PreopenedDirView {
            path: self.path.unwrap(),
            alias: self.alias,
            read: self.read,
            write: self.write || self.create,
            create: self.create,
        }
    }

    /// The message of the error that an unsuccessful build reports.
    pub open spec fn error_message(self) -> Seq<char> {
        if !(self.read || self.write || self.create) {
            no_permission_message()
        } else if !(self.path matches Some(p) && p.len() > 0) {
            no_path_message()
        } else {
            alias_error_message(self.alias.unwrap())
        }
    }

    /// `e` is the error that an unsuccessful build reports.
    pub open spec fn reports(self, e: WasiStateCreationError) -> bool {
        if self.alias_at_fault() {
            e matches WasiStateCreationError::MappedDirAliasFormattingError(m)
                && m@ == self.error_message()
        } else {
            e matches WasiStateCreationError::PreopenedDirectoryError(m)
                && m@ == self.error_message()
        }
    }

    /// Whether the failure is about the alias rather than the directory itself.
    pub open spec fn alias_at_fault(self) -> bool {
        (self.read || self.write || self.create) && (self.path matches Some(p) && p.len() > 0)
    }
}

/// Checks that a guest-visible alias holds no nul byte.
pub fn validate_mapped_dir_alias(alias: &str) -> (r: Result<(), WasiStateCreationError>)
    ensures
        r is Ok <==> !has_byte(utf8(alias@), 0u8),
        r matches Err(e) ==> e matches WasiStateCreationError::MappedDirAliasFormattingError(m)
            && m@ == alias_error_message(alias@),
{
    if str_contains_byte(alias, 0u8) {
        let mut msg = String::from_str("Alias \"");
        msg.append(alias);
        msg.append("\" contains a nul byte");
        return Err(WasiStateCreationError::MappedDirAliasFormattingError(msg));
    }
    Ok(())
}

impl PreopenDirBuilder {
    pub open spec fn spec_empty() -> PreopenDirBuilderView {
        PreopenDirBuilderView { path: None, alias: None, read: false, write: false, create: false }
    }

    /// An empty builder: no path, no alias, no permission.
    pub fn new() -> (r: Self)
        ensures
            r@ == Self::spec_empty(),
    {
        PreopenDirBuilder { path: None, alias: None, read: false, write: false, create: false }
    }

    /// Points the preopened directory at the host path `po_dir`.
    pub fn directory(&mut self, po_dir: &str) -> (r: &mut Self)
        ensures
            final(r)@ == final(self)@,
            r@ == (PreopenDirBuilderView { path: Some(po_dir@), ..old(self)@ }),
    {
        self.path = Some(po_dir.to_string());
        self
    }

    /// Makes the directory appear to the guest as `alias`. Leading slashes are
    /// dropped: directories are mounted under `/`, and repeated slashes are one.
    pub fn alias(&mut self, alias: &str) -> (r: &mut Self)
        ensures
            final(r)@ == final(self)@,
            r@ == (PreopenDirBuilderView {
                alias: Some(without_leading_slashes(alias@)),
                ..old(self)@
            }),
    {
        self.alias = Some(trim_leading_slashes(alias));
        self
    }

    /// Sets the read permission.
    pub fn read(&mut self, toggle: bool) -> (r: &mut Self)
        ensures
            final(r)@ == final(self)@,
            r@ == (PreopenDirBuilderView { read: toggle, ..old(self)@ }),
    {
        self.read = toggle;
        self
    }

    /// Sets the write permission.
    pub fn write(&mut self, toggle: bool) -> (r: &mut Self)
        ensures
            final(r)@ == final(self)@,
            r@ == (PreopenDirBuilderView { write: toggle, ..old(self)@ }),
    {
        self.write = toggle;
        self
    }

    /// Sets the create permission; granting it grants `write` too.
    pub fn create(&mut self, toggle: bool) -> (r: &mut Self)
        ensures
            final(r)@ == final(self)@,
            r@ == (PreopenDirBuilderView {
                create: toggle,
                write: old(self).write || toggle,
                ..old(self)@
            }),
    {
        self.create = toggle;
        if toggle {
            self.write = true;
        }
        self
    }

    /// Checks the settings and assembles the directory. It fails when no
    /// permission is set, when no (or an empty) host path was given, or when
    /// the alias holds a nul byte, in that order.
    pub fn build(&self) -> (r: Result<PreopenedDir, WasiStateCreationError>)
        ensures
            r is Ok <==> self@.buildable(),
            r matches Ok(d) ==> d@ == self@.built() && d@.wf(),
            r matches Err(e) ==> self@.reports(e),
    {
        if !(self.read || self.write || self.create) {
            return Err(
                WasiStateCreationError::PreopenedDirectoryError(
                    String::from_str(
                        "Preopened directories must have at least one of read, write, create permissions set",
                    ),
                ),
            );
        }
        let path = match &self.path {
            Some(p) if !p.as_str().is_empty() => p.clone(),
            _ => {
                return Err(
                    WasiStateCreationError::PreopenedDirectoryError(
                        String::from_str("Preopened directories must point to a host directory"),
                    ),
                );
            },
        };
        if let Some(alias) = &self.alias {
            validate_mapped_dir_alias(alias.as_str())?;
        }
        Ok(
            PreopenedDir {
                path,
                alias: self.alias.clone(),
                read: self.read,
                write: self.write || self.create,
                create: self.create,
            },
        )
    }
}

} // verus!
