//! The ignore filter: a builder-configured, immutable-once-built value
//! deciding which entries a caller wants excluded, by size bounds, an
//! extension allow-list, and substring ignore patterns.

use vstd::prelude::*;
use crate::text::{has_substring, spec_path_ext, contains_str, path_extension, str_eq};

verus! {

/// Some pattern of the list occurs in the path.
pub open spec fn pattern_match(path: Seq<char>, patterns: Seq<String>) -> bool {
    exists|i: int| 0 <= i < patterns.len() && has_substring(path, patterns[i]@)
}

/// The path has an extension and it is in the allow-list.
pub open spec fn ext_allowed(path: Seq<char>, exts: Seq<String>) -> bool {
    match spec_path_ext(path) {
        Some(e) => exists|i: int| 0 <= i < exts.len() && exts[i]@ == e,
        None => false,
    }
}

/// Whether some element of the list equals the given string.
pub fn str_list_contains(l: &Vec<String>, x: &str) -> (r: bool)
    ensures
        r == exists|i: int| 0 <= i < l@.len() && l@[i]@ == x@,
{
    let mut i: usize = 0;
    while i < l.len()
        invariant
            i <= l@.len(),
            forall|j: int| 0 <= j < i ==> l@[j]@ != x@,
        decreases l@.len() - i,
    {
        if str_eq(l[i].as_str(), x) {
            return true;
        }
        i += 1;
    }
    false
}

/// The default ignore patterns: dependency directories, build output,
/// version-control metadata, IDE directories, temporary files, and OS
/// housekeeping files.
pub open spec fn default_patterns_ok(p: Seq<String>) -> bool {
    &&& p.len() == 22
    &&& p[0]@ == "node_modules"@
    &&& p[1]@ == "bower_components"@
    &&& p[2]@ == "vendor"@
    &&& p[3]@ == "packages"@
    &&& p[4]@ == "target"@
    &&& p[5]@ == "build"@
    &&& p[6]@ == "dist"@
    &&& p[7]@ == "out"@
    &&& p[8]@ == ".next"@
    &&& p[9]@ == ".nuxt"@
    &&& p[10]@ == ".git"@
    &&& p[11]@ == ".svn"@
    &&& p[12]@ == ".hg"@
    &&& p[13]@ == ".idea"@
    &&& p[14]@ == ".vscode"@
    &&& p[15]@ == ".vs"@
    &&& p[16]@ == "tmp"@
    &&& p[17]@ == "temp"@
    &&& p[18]@ == ".cache"@
    &&& p[19]@ == ".DS_Store"@
    &&& p[20]@ == "Thumbs.db"@
    &&& p[21]@ == "desktop.ini"@
}

/// Decides, per candidate entry, whether it is excluded: too small, too
/// large, extension not in the allow-list, or an ignore pattern occurs
/// in the path. Stateless once built; configured by the builder methods.
pub struct SmartFilter {
    patterns: Vec<String>,
    min_size: Option<u64>,
    max_size: Option<u64>,
    extensions: Option<Vec<String>>,
}

impl SmartFilter {
    pub closed spec fn spec_patterns(self) -> Seq<String> {
        self.patterns@
    }

    pub closed spec fn spec_min_size(self) -> Option<u64> {
        self.min_size
    }

    pub closed spec fn spec_max_size(self) -> Option<u64> {
        self.max_size
    }

    pub closed spec fn spec_extensions(self) -> Option<Vec<String>> {
        self.extensions
    }

    /// What `should_filter` decides: the disjunction of the four
    /// exclusion rules.
    pub open spec fn spec_should_filter(self, path: Seq<char>, size: u64) -> bool {
        ||| (self.spec_min_size() is Some && size < self.spec_min_size()->0)
        ||| (self.spec_max_size() is Some && size > self.spec_max_size()->0)
        ||| (self.spec_extensions() is Some && !ext_allowed(path, self.spec_extensions()->0@))
        ||| pattern_match(path, self.spec_patterns())
    }

    /// A filter with the default ignore patterns and no size or
    /// extension constraint.
    pub fn new() -> (r: Self)
        ensures
            default_patterns_ok(r.spec_patterns()),
            r.spec_min_size() is None,
            r.spec_max_size() is None,
            r.spec_extensions() is None,
    {
        Self::default()
    }

    /// Add one ignore pattern.
    pub fn add_pattern(self, pattern: String) -> (r: Self)
        ensures
            r.spec_patterns() == self.spec_patterns().push(pattern),
            r.spec_min_size() == self.spec_min_size(),
            r.spec_max_size() == self.spec_max_size(),
            r.spec_extensions() == self.spec_extensions(),
    {
        let mut s = self;
        s.patterns.push(pattern);
        s
    }

    /// Exclude entries smaller than `size` bytes.
    pub fn min_size(self, size: u64) -> (r: Self)
        ensures
            r.spec_min_size() == Some(size),
            r.spec_patterns() == self.spec_patterns(),
            r.spec_max_size() == self.spec_max_size(),
            r.spec_extensions() == self.spec_extensions(),
    {
        let mut s = self;
        s.min_size = Some(size);
        s
    }

    /// Exclude entries larger than `size` bytes.
    pub fn max_size(self, size: u64) -> (r: Self)
        ensures
            r.spec_max_size() == Some(size),
            r.spec_patterns() == self.spec_patterns(),
            r.spec_min_size() == self.spec_min_size(),
            r.spec_extensions() == self.spec_extensions(),
    {
        let mut s = self;
        s.max_size = Some(size);
        s
    }

    /// Only keep entries whose extension is in the given list.
    pub fn extensions(self, exts: Vec<String>) -> (r: Self)
        ensures
            r.spec_extensions() == Some(exts),
            r.spec_patterns() == self.spec_patterns(),
            r.spec_min_size() == self.spec_min_size(),
            r.spec_max_size() == self.spec_max_size(),
    {
        let mut s = self;
        s.extensions = Some(exts);
        s
    }

    /// Whether the entry at `path` of the given size is excluded. The
    /// rules are checked in a fixed order — minimum size, maximum size,
    /// extension allow-list, ignore patterns — and the first that holds
    /// decides.
    pub fn should_filter(&self, path: &str, size: u64) -> (r: bool)
        ensures
            r == self.spec_should_filter(path@, size),
    {
        if let Some(m) = self.min_size {
            if size < m {
                return true;
            }
        }
        if let Some(m) = self.max_size {
            if size > m {
                return true;
            }
        }
        if let Some(exts) = &self.extensions {
            match path_extension(path) {
                Some(e) => {
                    if !str_list_contains(exts, e.as_str()) {
                        return true;
                    }
                },
                None => {
                    return true;
                },
            }
        }
        let mut i: usize = 0;
        while i < self.patterns.len()
            invariant
                i <= self.patterns@.len(),
                forall|j: int| 0 <= j < i ==> !has_substring(path@, self.patterns@[j]@),
            decreases self.patterns@.len() - i,
        {
            if contains_str(path, self.patterns[i].as_str()) {
                return true;
            }
            i += 1;
        }
        false
    }
}

impl Default for SmartFilter {
    /// Same as `SmartFilter::new`.
    fn default() -> (r: Self)
        ensures
            default_patterns_ok(r.spec_patterns()),
            r.spec_min_size() is None,
            r.spec_max_size() is None,
            r.spec_extensions() is None,
    {
        let mut pats: Vec<String> = Vec::new();
        pats.push("node_modules".to_owned());
        pats.push("bower_components".to_owned());
        pats.push("vendor".to_owned());
        pats.push("packages".to_owned());
        pats.push("target".to_owned());
        pats.push("build".to_owned());
        pats.push("dist".to_owned());
        pats.push("out".to_owned());
        pats.push(".next".to_owned());
        pats.push(".nuxt".to_owned());
        pats.push(".git".to_owned());
        pats.push(".svn".to_owned());
        pats.push(".hg".to_owned());
        pats.push(".idea".to_owned());
        pats.push(".vscode".to_owned());
        pats.push(".vs".to_owned());
        pats.push("tmp".to_owned());
        pats.push("temp".to_owned());
        pats.push(".cache".to_owned());
        pats.push(".DS_Store".to_owned());
        pats.push("Thumbs.db".to_owned());
        pats.push("desktop.ini".to_owned());
        SmartFilter { patterns: pats, min_size: None, max_size: None, extensions: None }
    }
}

} // verus!
