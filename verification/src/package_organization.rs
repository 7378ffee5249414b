//! Monorepo package-placement rules: a package lives under
//! `packages/{category}/{platform}/{domain}/{package-name}/{language}`, and a
//! package of one platform must not import from the other.

use vstd::prelude::*;

verus! {

use crate::text::seq_contains;
use crate::text::spec_join;
use crate::text::spec_split;
use crate::text::str_contains;
use crate::text::str_eq;
use crate::text::str_to_string;
use crate::text::view_strs;

/// The parsed placement of a package path.
#[derive(Debug)]
pub struct PackageValidation {
    pub category: String,
    pub platform: String,
    pub domain: String,
    pub package_name: String,
    pub language: String,
    pub is_valid: bool,
}

/// The mathematical form of a parsed placement.
#[verifier::ext_equal]
pub struct PackageValidationV {
    pub category: Seq<char>,
    pub platform: Seq<char>,
    pub domain: Seq<char>,
    pub package_name: Seq<char>,
    pub language: Seq<char>,
    pub is_valid: bool,
}

impl View for PackageValidation {
    type V = PackageValidationV;

    open spec fn view(&self) -> PackageValidationV {
        PackageValidationV {
            category: self.category@,
            platform: self.platform@,
            domain: self.domain@,
            package_name: self.package_name@,
            language: self.language@,
            is_valid: self.is_valid,
        }
    }
}

/// Whether the path component names one of the accepted categories.
pub open spec fn valid_category(c: Seq<char>) -> bool {
    c == "core"@ || c == "features"@ || c == "services"@ || c == "ui"@
}

/// Whether the path component names one of the accepted platforms.
pub open spec fn valid_platform(p: Seq<char>) -> bool {
    p == "web"@ || p == "node"@ || p == "shared"@ || p == "any"@
}

/// Whether the path component names one of the accepted languages.
pub open spec fn valid_language(l: Seq<char>) -> bool {
    l == "typescript"@ || l == "python"@ || l == "swift"@ || l == "java"@ || l == "go"@
        || l == "rust"@
}

/// The position of the first `packages` component of the split path, if any.
pub open spec fn packages_idx(parts: Seq<Seq<char>>) -> Option<int> {
    if exists|i: int| 0 <= i < parts.len() && parts[i] == "packages"@ {
        Some(
            choose|i: int|
                0 <= i < parts.len() && parts[i] == "packages"@ && forall|j: int|
                    0 <= j < i ==> parts[j] != "packages"@,
        )
    } else {
        None
    }
}

/// What validating a package path yields: the five components after the first
/// `packages` component, when the path has them and the category, platform
/// and language are accepted; the error naming what is wrong otherwise.
pub open spec fn spec_validate_package_path(path: Seq<char>) -> Result<
    PackageValidationV,
    Seq<char>,
> {
    let parts = spec_split(path, '/');
    match packages_idx(parts) {
        None => Err("Not a packages directory"@),
        Some(idx) => {
            let rest = parts.skip(idx + 1);
            if rest.len() < 5 {
                Err(
                    "Invalid package structure. Expected: packages/{category}/{platform}/{domain}/{package-name}/{language}, got: "@
                        + spec_join(rest, '/'),
                )
            } else if !valid_category(rest[0]) {
                Err(
                    "Invalid category '"@ + rest[0]
                        + "'. Must be one of: core, features, services, ui"@,
                )
            } else if !valid_platform(rest[1]) {
                Err(
                    "Invalid platform '"@ + rest[1]
                        + "'. Must be one of: web, node, shared, any"@,
                )
            } else if !valid_language(rest[4]) {
                Err(
                    "Invalid language '"@ + rest[4]
                        + "'. Must be one of: typescript, python, swift, java, go, rust"@,
                )
            } else {
                Ok(
                    PackageValidationV {
                        category: rest[0],
                        platform: rest[1],
                        domain: rest[2],
                        package_name: rest[3],
                        language: rest[4],
                        is_valid: true,
                    },
                )
            }
        },
    }
}

/// Whether a package of the given platform may import the given path: a web
/// package must not import from under `/node/`, a node package must not
/// import from under `/web/`.
pub open spec fn spec_platform_ok(platform: Seq<char>, import_path: Seq<char>) -> bool {
    !(platform == "web"@ && seq_contains(import_path, "/node/"@)) && !(platform == "node"@
        && seq_contains(import_path, "/web/"@))
}

/// The package-placement rules.
pub struct PackageOrganizationRuleSet;

impl PackageOrganizationRuleSet {
    /// Parses and validates a package path against the expected
    /// `packages/{category}/{platform}/{domain}/{package-name}/{language}`
    /// layout.
    pub fn validate_package_path(path: &str) -> (r: Result<PackageValidation, String>)
        ensures
            match r {
                Ok(v) => spec_validate_package_path(path@) == Ok::<
                    PackageValidationV,
                    Seq<char>,
                >(v@),
                Err(m) => spec_validate_package_path(path@) == Err::<
                    PackageValidationV,
                    Seq<char>,
                >(m@),
            },
    {
        let parts = crate::text::split_str(path, '/');
        let ghost pv = view_strs(parts@);
        proof {
            crate::text::lemma_view_strs(parts@);
        }
        let mut idx: usize = 0;
        let mut found = false;
        let mut i: usize = 0;
        while i < parts.len() && !found
            invariant
                i <= parts@.len(),
                pv == view_strs(parts@),
                pv.len() == parts@.len(),
                forall|j: int| 0 <= j < pv.len() ==> pv[j] == parts@[j]@,
                !found ==> forall|j: int| 0 <= j < i ==> pv[j] != "packages"@,
                found ==> idx < i && pv[idx as int] == "packages"@ && (forall|j: int|
                    0 <= j < idx ==> pv[j] != "packages"@),
            decreases parts.len() - i,
        {
            if str_eq(parts[i].as_str(), "packages") {
                idx = i;
                found = true;
            }
            i = i + 1;
        }
        if !found {
            proof {
                assert(forall|j: int| 0 <= j < pv.len() ==> pv[j] != "packages"@);
                assert(packages_idx(pv) is None);
            }
            return Err(str_to_string("Not a packages directory"));
        }
        proof {
            let gidx = idx as int;
            assert(0 <= gidx < pv.len() && pv[gidx] == "packages"@ && forall|j: int|
                0 <= j < gidx ==> pv[j] != "packages"@);
            assert(exists|i: int| 0 <= i < pv.len() && pv[i] == "packages"@);
            let k = choose|i: int|
                0 <= i < pv.len() && pv[i] == "packages"@ && forall|j: int|
                    0 <= j < i ==> pv[j] != "packages"@;
            assert(exists|i: int|
                0 <= i < pv.len() && pv[i] == "packages"@ && forall|j: int|
                    0 <= j < i ==> pv[j] != "packages"@);
            assert(0 <= k < pv.len() && pv[k] == "packages"@ && forall|j: int|
                0 <= j < k ==> pv[j] != "packages"@);
            if k < gidx {
                assert(pv[k] != "packages"@);
                assert(false);
            }
            if gidx < k {
                assert(pv[gidx] != "packages"@);
                assert(false);
            }
            assert(packages_idx(pv) == Some(gidx));
        }
        let ghost rest = pv.skip(idx as int + 1);
        let remaining = parts.len() - idx - 1;
        if remaining < 5 {
            let mut tail: Vec<String> = Vec::new();
            let mut k: usize = idx + 1;
            while k < parts.len()
                invariant
                    idx + 1 <= k <= parts@.len(),
                    pv == view_strs(parts@),
                    pv.len() == parts@.len(),
                    forall|j: int| 0 <= j < pv.len() ==> pv[j] == parts@[j]@,
                    tail@.len() == k - idx - 1,
                    forall|j: int| 0 <= j < tail@.len() ==> tail@[j]@ == pv[idx + 1 + j],
                decreases parts.len() - k,
            {
                tail.push(str_to_string(parts[k].as_str()));
                k = k + 1;
            }
            proof {
                crate::text::lemma_view_strs(tail@);
                assert(view_strs(tail@) =~= rest);
            }
            let joined = crate::text::join_strs(&tail, '/');
            let mut m = str_to_string(
                "Invalid package structure. Expected: packages/{category}/{platform}/{domain}/{package-name}/{language}, got: ",
            );
            crate::text::append_str(&mut m, joined.as_str());
            return Err(m);
        }
        proof {
            assert(rest.len() == pv.len() - idx - 1);
            assert(rest[0] == pv[idx as int + 1]);
            assert(rest[1] == pv[idx as int + 2]);
            assert(rest[2] == pv[idx as int + 3]);
            assert(rest[3] == pv[idx as int + 4]);
            assert(rest[4] == pv[idx as int + 5]);
        }
        let category = parts[idx + 1].as_str();
        let platform = parts[idx + 2].as_str();
        let domain = parts[idx + 3].as_str();
        let package_name = parts[idx + 4].as_str();
        let language = parts[idx + 5].as_str();
        if !(str_eq(category, "core") || str_eq(category, "features") || str_eq(
            category,
            "services",
        ) || str_eq(category, "ui")) {
            let mut m = str_to_string("Invalid category '");
            crate::text::append_str(&mut m, category);
            crate::text::append_str(&mut m, "'. Must be one of: core, features, services, ui");
            return Err(m);
        }
        if !(str_eq(platform, "web") || str_eq(platform, "node") || str_eq(
            platform,
            "shared",
        ) || str_eq(platform, "any")) {
            let mut m = str_to_string("Invalid platform '");
            crate::text::append_str(&mut m, platform);
            crate::text::append_str(&mut m, "'. Must be one of: web, node, shared, any");
            return Err(m);
        }
        if !(str_eq(language, "typescript") || str_eq(language, "python") || str_eq(
            language,
            "swift",
        ) || str_eq(language, "java") || str_eq(language, "go") || str_eq(language, "rust")) {
            let mut m = str_to_string("Invalid language '");
            crate::text::append_str(&mut m, language);
            crate::text::append_str(
                &mut m,
                "'. Must be one of: typescript, python, swift, java, go, rust",
            );
            return Err(m);
        }
        let v = PackageValidation {
            category: str_to_string(category),
            platform: str_to_string(platform),
            domain: str_to_string(domain),
            package_name: str_to_string(package_name),
            language: str_to_string(language),
            is_valid: true,
        };
        assert(v@ =~= spec_validate_package_path(path@)->Ok_0);
        Ok(v)
    }

    /// Whether importing `import_path` from the package at `package_path`
    /// crosses a platform boundary: false means a violation. A path that is
    /// not a valid package path is the error its validation names.
    pub fn check_platform_boundaries(package_path: &str, import_path: &str) -> (r: Result<
        bool,
        String,
    >)
        ensures
            match r {
                Ok(ok) => spec_validate_package_path(package_path@) matches Ok(v) && ok
                    == spec_platform_ok(v.platform, import_path@),
                Err(m) => spec_validate_package_path(package_path@) == Err::<
                    PackageValidationV,
                    Seq<char>,
                >(m@),
            },
    {
        let v = match Self::validate_package_path(package_path) {
            Ok(v) => v,
            Err(m) => {
                return Err(m);
            },
        };
        if str_eq(v.platform.as_str(), "web") && str_contains(import_path, "/node/") {
            return Ok(false);
        }
        if str_eq(v.platform.as_str(), "node") && str_contains(import_path, "/web/") {
            return Ok(false);
        }
        Ok(true)
    }
}

} // verus!
