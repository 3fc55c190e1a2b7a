//! Where the bundled GoodbyeDPI files are looked for, and the check that the
//! files needed to launch it are all there.

use vstd::prelude::*;
use crate::text::{join, join_strings, prefixed, string_list, strs};

verus! {

/// The resource directory that holds the GoodbyeDPI distribution.
pub const RESOURCE_DIR_NAME: &'static str = "goodbyedpi";

/// The directory, beside the application's manifest directory, that holds
/// the resources during development.
pub const DEV_RESOURCES_DIR_NAME: &'static str = "resources";

/// The subdirectory of the distribution that holds the binaries.
pub const BINARY_DIR_NAME: &'static str = "bin";

/// The GoodbyeDPI executable inside the binary directory.
pub const EXECUTABLE_NAME: &'static str = "goodbyedpi.exe";

/// Which of the two candidate directories holds the resources.
#[derive(PartialEq, Eq, Structural, Clone, Copy, Debug)]
pub enum ResourceSource {
    /// The directory bundled with the installed application.
    Bundled,
    /// The `resources/goodbyedpi` directory of the source tree.
    Development,
}

/// The bundled directory is taken when it could be resolved and exists;
/// otherwise the development directory when the source tree's root could be
/// named and the directory exists; otherwise the reason neither can be used.
pub fn resolve_resource_dir(bundled_exists: bool, development_exists: Option<bool>) -> (source: Result<ResourceSource, String>)
    ensures
        bundled_exists ==> source == Ok::<ResourceSource, String>(ResourceSource::Bundled),
        !bundled_exists ==> (match development_exists {
            Some(true) => source == Ok::<ResourceSource, String>(ResourceSource::Development),
            Some(false) => source matches Err(m) && m@ == "GoodbyeDPI resource klasoru bulunamadi."@,
            None => source matches Err(m) && m@ == "Proje kok klasoru bulunamadi."@,
        }),
{
    if bundled_exists {
        return Ok(ResourceSource::Bundled);
    }
    match development_exists {
        None => Err(String::from_str("Proje kok klasoru bulunamadi.")),
        Some(true) => Ok(ResourceSource::Development),
        Some(false) => Err(String::from_str("GoodbyeDPI resource klasoru bulunamadi.")),
    }
}

/// The files that must lie in the binary directory, in the order in which
/// missing ones are reported.
pub open spec fn required_binaries() -> Seq<Seq<char>> {
    strs(seq!["goodbyedpi.exe", "WinDivert.dll", "WinDivert64.sys"])
}

/// The names whose flag in `present` (same position) is false, in order.
pub open spec fn missing_names(names: Seq<Seq<char>>, present: Seq<bool>) -> Seq<Seq<char>>
    decreases names.len(),
{
    if names.len() == 0 {
        Seq::empty()
    } else {
        let rest = missing_names(names.drop_last(), present);
        if present[names.len() - 1] {
            rest
        } else {
            rest.push(names.last())
        }
    }
}

/// The text of the error that lists the missing binaries.
pub open spec fn missing_binaries_message(missing: Seq<Seq<char>>) -> Seq<char> {
    "Paketlenmis GoodbyeDPI dosyalari eksik: "@ + join(missing, ", "@)
        + ". `npm run sync:upstream` ve release dosyalariyla `resources/goodbyedpi/bin` klasorunu doldurun."@
}

/// The files that must lie in the binary directory.
pub fn required_binary_files() -> (names: Vec<String>)
    ensures
        names.deep_view() == required_binaries(),
{
    let files: &[&str] = &["goodbyedpi.exe", "WinDivert.dll", "WinDivert64.sys"];
    assert(files@ == seq!["goodbyedpi.exe", "WinDivert.dll", "WinDivert64.sys"]);
    string_list(files)
}

/// Checks the binary directory: `present[i]` tells whether the `i`-th
/// required file exists in it. The directory is handed back when all do;
/// otherwise the error lists the missing ones and how to provide them.
pub fn ensure_binary_layout(binary_dir: String, present: [bool; 3]) -> (layout: Result<String, String>)
    ensures
        layout is Ok <==> (present[0] && present[1] && present[2]),
        missing_names(required_binaries(), present@).len() == 0 ==> layout == Ok::<String, String>(binary_dir),
        missing_names(required_binaries(), present@).len() > 0 ==> (layout matches Err(message)
            && message@ == missing_binaries_message(missing_names(required_binaries(), present@))),
{
    let names = required_binary_files();
    let ghost all = names.deep_view();
    let mut missing: Vec<String> = Vec::new();
    let mut i: usize = 0;
    while i < 3
        invariant
            i <= 3,
            names.deep_view() == all,
            all == required_binaries(),
            all.len() == 3,
            present@.len() == 3,
            missing.deep_view() == missing_names(all.take(i as int), present@),
        decreases 3 - i,
    {
        assert(all.take(i + 1).drop_last() =~= all.take(i as int));
        if !present[i] {
            missing.push(names[i].clone());
        }
        i = i + 1;
        assert(missing.deep_view() =~= missing_names(all.take(i as int), present@));
    }
    assert(all.take(3) =~= all);
    proof { lemma_missing_binaries(present@); }
    if missing.len() == 0 {
        Ok(binary_dir)
    } else {
        let listed = join_strings(&missing, ", ");
        let message = prefixed("Paketlenmis GoodbyeDPI dosyalari eksik: ", listed.as_str()).concat(
            ". `npm run sync:upstream` ve release dosyalariyla `resources/goodbyedpi/bin` klasorunu doldurun.",
        );
        Err(message)
    }
}

/// The layout check reports a required file exactly when its flag says it
/// is absent, in the order of the required files, and reports none exactly
/// when all three are present.
pub proof fn lemma_missing_binaries(present: Seq<bool>)
    requires
        present.len() == 3,
    ensures
        required_binaries().len() == 3,
        missing_names(required_binaries(), present).len() == 0 <==> (present[0] && present[1] && present[2]),
        forall|i: int| 0 <= i < 3 ==>
            (missing_names(required_binaries(), present).contains(#[trigger] required_binaries()[i]) <==> !present[i]),
        missing_names(required_binaries(), present).len()
            == (if present[0] { 0int } else { 1int }) + (if present[1] { 0int } else { 1int }) + (if present[2] { 0int } else { 1int }),
{
    reveal_strlit("goodbyedpi.exe");
    reveal_strlit("WinDivert.dll");
    reveal_strlit("WinDivert64.sys");
    let names = required_binaries();
    assert(names.len() == 3);
    assert(names[0].len() == 14);
    assert(names[1].len() == 13);
    assert(names[2].len() == 15);
    let m0 = missing_names(names.take(0), present);
    let m1 = missing_names(names.take(1), present);
    let m2 = missing_names(names.take(2), present);
    assert(names.take(0) =~= Seq::<Seq<char>>::empty());
    assert(m0 =~= Seq::<Seq<char>>::empty());
    assert(names.take(1).drop_last() =~= names.take(0));
    assert(names.take(2).drop_last() =~= names.take(1));
    assert(names.drop_last() =~= names.take(2));
    assert(m1 == (if present[0] { m0 } else { m0.push(names[0]) }));
    assert(m2 == (if present[1] { m1 } else { m1.push(names[1]) }));
    let m = missing_names(names, present);
    assert(m == (if present[2] { m2 } else { m2.push(names[2]) }));
    assert forall|i: int| 0 <= i < 3 implies (m.contains(#[trigger] names[i]) <==> !present[i]) by {
        if !present[i] {
            if i == 0 {
                assert(m1.len() == 1 && m1[0] == names[0]);
                assert(m2[0] == names[0]);
                assert(m[0] == names[0]);
            } else if i == 1 {
                assert(m2[m1.len() as int] == names[1]);
                assert(m[m1.len() as int] == names[1]);
            } else {
                assert(m[m.len() - 1] == names[2]);
            }
        }
        if m.contains(names[i]) {
            let k = choose|k: int| 0 <= k < m.len() && m[k] == names[i];
            assert(forall|k: int| 0 <= k < m.len() ==> (m[k] == names[0] || m[k] == names[1] || m[k] == names[2]));
            assert(forall|k: int| 0 <= k < m.len() && m[k] == names[0] ==> !present[0]);
            assert(forall|k: int| 0 <= k < m.len() && m[k] == names[1] ==> !present[1]);
            assert(forall|k: int| 0 <= k < m.len() && m[k] == names[2] ==> !present[2]);
        }
    }
}

} // verus!
