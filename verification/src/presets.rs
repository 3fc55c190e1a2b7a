//! The catalog of GoodbyeDPI presets and lookup by identifier.

use vstd::prelude::*;
use crate::text::{string_list, strs};

verus! {

/// A named set of GoodbyeDPI command-line arguments.
pub struct Preset {
    pub id: String,
    pub label: String,
    pub description: String,
    pub launch_mode: String,
    pub args: Vec<String>,
    pub script_ref: Option<String>,
}

/// The mathematical model of a [`Preset`]: every string as its characters.
pub struct PresetView {
    pub id: Seq<char>,
    pub label: Seq<char>,
    pub description: Seq<char>,
    pub launch_mode: Seq<char>,
    pub args: Seq<Seq<char>>,
    pub script_ref: Option<Seq<char>>,
}

impl View for Preset {
    type V = PresetView;

    open spec fn view(&self) -> PresetView {
        PresetView {
            id: self.id@,
            label: self.label@,
            description: self.description@,
            launch_mode: self.launch_mode@,
            args: self.args.deep_view(),
            script_ref: self.script_ref.deep_view(),
        }
    }
}

/// A preset launched with command-line arguments, the one launch mode the
/// catalog uses.
pub open spec fn cli_preset(
    id: &str,
    label: &str,
    description: &str,
    args: Seq<&str>,
    script: &str,
) -> PresetView {
    PresetView {
        id: id@,
        label: label@,
        description: description@,
        launch_mode: "cli-args"@,
        args: strs(args),
        script_ref: Some(script@),
    }
}

/// The catalog, in the order in which it is offered.
pub open spec fn catalog() -> Seq<PresetView> {
    seq![
        cli_preset(
            "turkey-dnsredir",
            "Varsayılan",
            "GitHub release ZIP icindeki turkey_dnsredir.cmd ile ayni komutu calistirir.",
            seq![
                "--blacklist", "..\\hosts.txt", "-5", "--set-ttl", "5", "--dns-addr", "77.88.8.8",
                "--dns-port", "1253", "--dnsv6-addr", "2a02:6b8::feed:0ff", "--dnsv6-port", "1253",
            ],
            "turkey_dnsredir.cmd",
        ),
        cli_preset(
            "alt-superonline-1",
            "Alternatif 1",
            "ZIP icindeki turkey_dnsredir_alternative_superonline.cmd ile ayni komutu calistirir.",
            seq!["--set-ttl", "3"],
            "turkey_dnsredir_alternative_superonline.cmd",
        ),
        cli_preset(
            "alt-superonline-2",
            "Alternatif 2",
            "ZIP icindeki turkey_dnsredir_alternative2_superonline.cmd ile ayni komutu calistirir.",
            seq!["-5"],
            "turkey_dnsredir_alternative2_superonline.cmd",
        ),
        cli_preset(
            "alt-superonline-3",
            "Alternatif 3",
            "ZIP icindeki turkey_dnsredir_alternative3_superonline.cmd ile ayni komutu calistirir.",
            seq![
                "--set-ttl", "3", "--dns-addr", "77.88.8.8", "--dns-port", "1253", "--dnsv6-addr",
                "2a02:6b8::feed:0ff", "--dnsv6-port", "1253",
            ],
            "turkey_dnsredir_alternative3_superonline.cmd",
        ),
        cli_preset(
            "alt-superonline-4",
            "Alternatif 4",
            "ZIP icindeki turkey_dnsredir_alternative4_superonline.cmd ile ayni komutu calistirir.",
            seq![
                "-5", "--dns-addr", "77.88.8.8", "--dns-port", "1253", "--dnsv6-addr",
                "2a02:6b8::feed:0ff", "--dnsv6-port", "1253",
            ],
            "turkey_dnsredir_alternative4_superonline.cmd",
        ),
        cli_preset(
            "alt-superonline-5",
            "Alternatif 5",
            "ZIP icindeki turkey_dnsredir_alternative5_superonline.cmd ile ayni komutu calistirir.",
            seq![
                "-9", "--dns-addr", "77.88.8.8", "--dns-port", "1253", "--dnsv6-addr",
                "2a02:6b8::feed:0ff", "--dnsv6-port", "1253",
            ],
            "turkey_dnsredir_alternative5_superonline.cmd",
        ),
        cli_preset(
            "alt-superonline-6",
            "Alternatif 6",
            "ZIP icindeki turkey_dnsredir_alternative6_superonline.cmd ile ayni komutu calistirir.",
            seq!["-9"],
            "turkey_dnsredir_alternative6_superonline.cmd",
        ),
        cli_preset(
            "discord-only",
            "Sadece Discord",
            "Sadece Discord'a erişim sağlar. Diğer sitefler engellenir.",
            seq!["-1", "--blacklist", "..\\russia-blacklist.txt", "--blacklist", "..\\discord-custom.txt"],
            "discord-only.cmd",
        ),
    ]
}

/// The view of each preset of a list.
pub open spec fn presets_view(presets: Seq<Preset>) -> Seq<PresetView> {
    presets.map_values(|p: Preset| p@)
}

fn cli(id: &str, label: &str, description: &str, args: &[&str], script: &str) -> (p: Preset)
    ensures
        p@ == cli_preset(id, label, description, args@, script),
{
    Preset {
        id: String::from_str(id),
        label: String::from_str(label),
        description: String::from_str(description),
        launch_mode: String::from_str("cli-args"),
        args: string_list(args),
        script_ref: Some(String::from_str(script)),
    }
}

/// Every preset the launcher offers, in catalog order.
pub fn preset_catalog() -> (presets: Vec<Preset>)
    ensures
        presets_view(presets@) == catalog(),
{
    let mut presets: Vec<Preset> = Vec::new();
    presets.push(cli(
        "turkey-dnsredir",
        "Varsayılan",
        "GitHub release ZIP icindeki turkey_dnsredir.cmd ile ayni komutu calistirir.",
        &[
            "--blacklist", "..\\hosts.txt", "-5", "--set-ttl", "5", "--dns-addr", "77.88.8.8",
            "--dns-port", "1253", "--dnsv6-addr", "2a02:6b8::feed:0ff", "--dnsv6-port", "1253",
        ],
        "turkey_dnsredir.cmd",
    ));
    assert(presets_view(presets@) =~= catalog().take(1));
    presets.push(cli(
        "alt-superonline-1",
        "Alternatif 1",
        "ZIP icindeki turkey_dnsredir_alternative_superonline.cmd ile ayni komutu calistirir.",
        &["--set-ttl", "3"],
        "turkey_dnsredir_alternative_superonline.cmd",
    ));
    assert(presets_view(presets@) =~= catalog().take(2));
    let mode_five: &[&str] = &["-5"];
    assert(mode_five@ == seq!["-5"]);
    presets.push(cli(
        "alt-superonline-2",
        "Alternatif 2",
        "ZIP icindeki turkey_dnsredir_alternative2_superonline.cmd ile ayni komutu calistirir.",
        mode_five,
        "turkey_dnsredir_alternative2_superonline.cmd",
    ));
    assert(presets_view(presets@) =~= catalog().take(3));
    presets.push(cli(
        "alt-superonline-3",
        "Alternatif 3",
        "ZIP icindeki turkey_dnsredir_alternative3_superonline.cmd ile ayni komutu calistirir.",
        &[
            "--set-ttl", "3", "--dns-addr", "77.88.8.8", "--dns-port", "1253", "--dnsv6-addr",
            "2a02:6b8::feed:0ff", "--dnsv6-port", "1253",
        ],
        "turkey_dnsredir_alternative3_superonline.cmd",
    ));
    assert(presets_view(presets@) =~= catalog().take(4));
    presets.push(cli(
        "alt-superonline-4",
        "Alternatif 4",
        "ZIP icindeki turkey_dnsredir_alternative4_superonline.cmd ile ayni komutu calistirir.",
        &[
            "-5", "--dns-addr", "77.88.8.8", "--dns-port", "1253", "--dnsv6-addr",
            "2a02:6b8::feed:0ff", "--dnsv6-port", "1253",
        ],
        "turkey_dnsredir_alternative4_superonline.cmd",
    ));
    assert(presets_view(presets@) =~= catalog().take(5));
    presets.push(cli(
        "alt-superonline-5",
        "Alternatif 5",
        "ZIP icindeki turkey_dnsredir_alternative5_superonline.cmd ile ayni komutu calistirir.",
        &[
            "-9", "--dns-addr", "77.88.8.8", "--dns-port", "1253", "--dnsv6-addr",
            "2a02:6b8::feed:0ff", "--dnsv6-port", "1253",
        ],
        "turkey_dnsredir_alternative5_superonline.cmd",
    ));
    assert(presets_view(presets@) =~= catalog().take(6));
    let mode_nine: &[&str] = &["-9"];
    assert(mode_nine@ == seq!["-9"]);
    presets.push(cli(
        "alt-superonline-6",
        "Alternatif 6",
        "ZIP icindeki turkey_dnsredir_alternative6_superonline.cmd ile ayni komutu calistirir.",
        mode_nine,
        "turkey_dnsredir_alternative6_superonline.cmd",
    ));
    assert(presets_view(presets@) =~= catalog().take(7));
    presets.push(cli(
        "discord-only",
        "Sadece Discord",
        "Sadece Discord'a erişim sağlar. Diğer sitefler engellenir.",
        &["-1", "--blacklist", "..\\russia-blacklist.txt", "--blacklist", "..\\discord-custom.txt"],
        "discord-only.cmd",
    ));
    assert(presets_view(presets@) =~= catalog().take(8));
    assert(presets_view(presets@) =~= catalog());
    presets
}

/// The presets offered to the user interface: the whole catalog.
pub fn list_presets() -> (presets: Vec<Preset>)
    ensures
        presets_view(presets@) == catalog(),
{
    preset_catalog()
}

/// Takes the first preset of `presets` whose identifier is `id`, as
/// `into_iter().find(..)` does on the catalog.
pub fn find_preset(presets: Vec<Preset>, id: &String) -> (found: Option<Preset>)
    ensures
        match found {
            Some(p) => exists|i: int|
                #![trigger presets@[i]]
                0 <= i < presets@.len() && p == presets@[i] && presets@[i].id@ == id@
                    && forall|j: int| 0 <= j < i ==> #[trigger] presets@[j].id@ != id@,
            None => forall|i: int| 0 <= i < presets@.len() ==> #[trigger] presets@[i].id@ != id@,
        },
{
    let mut remaining = presets;
    let ghost original = remaining@;
    let mut i: usize = 0;
    while i < remaining.len()
        invariant
            remaining@ == original,
            original == presets@,
            i <= remaining@.len(),
            forall|j: int| 0 <= j < i ==> #[trigger] remaining@[j].id@ != id@,
        decreases remaining@.len() - i,
    {
        if remaining[i].id == *id {
            assert(forall|j: int| 0 <= j < i ==> #[trigger] original[j].id@ != id@);
            let p = remaining.remove(i);
            assert(p == original[i as int] && original[i as int].id@ == id@);
            return Some(p);
        }
        i = i + 1;
    }
    None
}

/// No two presets of the catalog share an identifier, so a lookup by
/// identifier names at most one preset.
pub proof fn lemma_catalog_ids_distinct()
    ensures
        catalog().len() == 8,
        forall|i: int, j: int|
            0 <= i < catalog().len() && 0 <= j < catalog().len() && i != j
                ==> #[trigger] catalog()[i].id != #[trigger] catalog()[j].id,
{
    reveal_strlit("turkey-dnsredir");
    reveal_strlit("alt-superonline-1");
    reveal_strlit("alt-superonline-2");
    reveal_strlit("alt-superonline-3");
    reveal_strlit("alt-superonline-4");
    reveal_strlit("alt-superonline-5");
    reveal_strlit("alt-superonline-6");
    reveal_strlit("discord-only");
    let c = catalog();
    assert(c[0].id.len() == 15);
    assert(c[7].id.len() == 12);
    assert forall|i: int, j: int|
        1 <= i < 7 && 1 <= j < 7 && i != j implies #[trigger] c[i].id != #[trigger] c[j].id by {
        assert(c[i].id[16] != c[j].id[16]);
    }
}

/// The arguments that send DNS queries to the Yandex resolvers on a
/// non-standard port, for IPv4 and IPv6.
pub open spec fn dns_redirect_args() -> Seq<Seq<char>> {
    strs(seq![
        "--dns-addr", "77.88.8.8", "--dns-port", "1253", "--dnsv6-addr", "2a02:6b8::feed:0ff",
        "--dnsv6-port", "1253",
    ])
}

/// How the arguments of the catalog are built: the Superonline alternatives
/// 3, 4 and 5 are alternatives 1, 2 and 6 (TTL 3, mode `-5`, mode `-9`) with
/// the DNS redirection added; the default preset is the hosts blacklist with
/// mode `-5` and TTL 5 plus the DNS redirection; the Discord preset is mode
/// `-1` with two blacklists. Each preset is at its place in the catalog.
pub proof fn lemma_catalog_arguments()
    ensures
        catalog().len() == 8,
        catalog()[0].id == "turkey-dnsredir"@,
        catalog()[1].id == "alt-superonline-1"@,
        catalog()[2].id == "alt-superonline-2"@,
        catalog()[3].id == "alt-superonline-3"@,
        catalog()[4].id == "alt-superonline-4"@,
        catalog()[5].id == "alt-superonline-5"@,
        catalog()[6].id == "alt-superonline-6"@,
        catalog()[7].id == "discord-only"@,
        catalog()[1].args == seq!["--set-ttl"@, "3"@],
        catalog()[2].args == seq!["-5"@],
        catalog()[6].args == seq!["-9"@],
        catalog()[3].args == catalog()[1].args + dns_redirect_args(),
        catalog()[4].args == catalog()[2].args + dns_redirect_args(),
        catalog()[5].args == catalog()[6].args + dns_redirect_args(),
        catalog()[0].args == seq!["--blacklist"@, "..\\hosts.txt"@, "-5"@, "--set-ttl"@, "5"@] + dns_redirect_args(),
        catalog()[7].args == seq![
            "-1"@, "--blacklist"@, "..\\russia-blacklist.txt"@, "--blacklist"@, "..\\discord-custom.txt"@,
        ],
        forall|i: int| 0 <= i < catalog().len() ==> #[trigger] catalog()[i].launch_mode == "cli-args"@,
{
    let c = catalog();
    assert(c[1].args =~= seq!["--set-ttl"@, "3"@]);
    assert(c[2].args =~= seq!["-5"@]);
    assert(c[6].args =~= seq!["-9"@]);
    assert(c[3].args =~= c[1].args + dns_redirect_args());
    assert(c[4].args =~= c[2].args + dns_redirect_args());
    assert(c[5].args =~= c[6].args + dns_redirect_args());
    assert(c[0].args =~= seq!["--blacklist"@, "..\\hosts.txt"@, "-5"@, "--set-ttl"@, "5"@] + dns_redirect_args());
    assert(c[7].args =~= seq![
        "-1"@, "--blacklist"@, "..\\russia-blacklist.txt"@, "--blacklist"@, "..\\discord-custom.txt"@,
    ]);
}

/// No two presets of the catalog run GoodbyeDPI with the same arguments, so
/// every choice in the list gives a different command.
pub proof fn lemma_catalog_arguments_distinct()
    ensures
        forall|i: int, j: int|
            0 <= i < catalog().len() && 0 <= j < catalog().len() && i != j
                ==> #[trigger] catalog()[i].args != #[trigger] catalog()[j].args,
{
    lemma_catalog_arguments();
    reveal_strlit("-5");
    reveal_strlit("-9");
    assert("-5"@[1] != "-9"@[1]);
    assert("-5"@ != "-9"@);
    let c = catalog();
    assert(c[2].args[0] != c[6].args[0]);
    assert(c[4].args[0] != c[5].args[0]);
    assert(c[0].args.len() == 13);
    assert(c[1].args.len() == 2);
    assert(c[2].args.len() == 1);
    assert(c[3].args.len() == 10);
    assert(c[4].args.len() == 9);
    assert(c[5].args.len() == 9);
    assert(c[6].args.len() == 1);
    assert(c[7].args.len() == 5);
}

} // verus!
