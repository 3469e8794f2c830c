//! The configuration: its document format and its file locations.
//!
//! The configuration document has a `ca` section — `managed` says whether
//! this system owns the trust material, and a managed section names the
//! `certificate`, `key` and `crls` files — and a `profiles` section whose
//! child nodes are the named profiles, each optionally overriding a
//! certificate path. Profile names must be unique. A missing required key
//! or a value of the wrong type is a configuration error naming the
//! offending key and section. Property lookups follow the document
//! format's rule that the rightmost binding of a repeated property wins;
//! section lookups take the first node of the given name.
//!
//! File locations live under the platform's per-user configuration
//! directory for this application; resolving that directory is the
//! platform library's work and stays behind trusted items, while the
//! joining of file names onto it is plain verified string work.

use vstd::prelude::*;
use vstd::string::StringExecFns;

use crate::document::{
    find_prop_model, kdl_document_model, kdl_parses, nodes_model, parse_document, ChildData,
    ChildModel, EntryData, NodeData, NodeModel, ValueData, ValueModel,
};
use crate::error::{Error, ErrorModel};

verus! {

/// The application identifier: it names the configuration directory and
/// the certificate subject.
pub const APPNAME: &'static str = "holepunch";

/// How trust material is provisioned: supplied externally and only ever
/// loaded (`Unmanaged`), or generated, persisted and reloaded by this
/// system at the three named paths (`Managed`). The three paths travel
/// together: a managed configuration always has all of them.
#[derive(Debug, Clone)]
pub enum CAConfig {
    Unmanaged,
    Managed { certificate: String, key: String, crls: String },
}

/// The mathematical shadow of `CAConfig`.
pub enum CAConfigView {
    Unmanaged,
    Managed { certificate: Seq<char>, key: Seq<char>, crls: Seq<char> },
}

impl View for CAConfig {
    type V = CAConfigView;

    open spec fn view(&self) -> CAConfigView {
        match self {
            CAConfig::Unmanaged => CAConfigView::Unmanaged,
            CAConfig::Managed { certificate, key, crls } => CAConfigView::Managed {
                certificate: certificate@,
                key: key@,
                crls: crls@,
            },
        }
    }
}

/// A named profile, optionally overriding the certificate path.
#[derive(Debug, Clone)]
pub struct ProfileConfig {
    pub name: String,
    pub certificate: Option<String>,
}

/// The mathematical shadow of `ProfileConfig`.
pub struct ProfileView {
    pub name: Seq<char>,
    pub certificate: Option<Seq<char>>,
}

impl View for ProfileConfig {
    type V = ProfileView;

    open spec fn view(&self) -> ProfileView {
        ProfileView {
            name: self.name@,
            certificate: match self.certificate {
                Option::Some(c) => Option::Some(c@),
                Option::None => Option::None,
            },
        }
    }
}

/// The whole configuration: the trust-provisioning mode and the profiles,
/// keyed by their (unique) names.
#[derive(Debug, Clone)]
pub struct Config {
    pub ca: CAConfig,
    pub profiles: Vec<ProfileConfig>,
}

/// The mathematical shadow of `Config`.
pub struct ConfigView {
    pub ca: CAConfigView,
    pub profiles: Seq<ProfileView>,
}

impl View for Config {
    type V = ConfigView;

    open spec fn view(&self) -> ConfigView {
        ConfigView { ca: self.ca@, profiles: self.profiles@.map_values(|p: ProfileConfig| p@) }
    }
}

/// The message of a value of the wrong type at `section`.
pub open spec fn type_error_msg(section: Seq<char>, expected: Seq<char>) -> Seq<char> {
    "Incorrect type for '"@ + section + "'. Expected `"@ + expected + "`."@
}

/// The message of a missing required `key` in `section`.
pub open spec fn missing_arg_msg(key: Seq<char>, section: Seq<char>) -> Seq<char> {
    "Missing '"@ + key + "' arg for '"@ + section + "' section."@
}

/// The message of a profile name bound twice.
pub open spec fn duplicate_profile_msg(name: Seq<char>) -> Seq<char> {
    "Duplicate profile '"@ + name + "'."@
}

/// The configuration error for a value of the wrong type at `section`.
pub fn type_error(section: &str, expected: &str) -> (r: Error)
    ensures
        r@ == ErrorModel::Config(type_error_msg(section@, expected@)),
{
    let mut message = String::from_str("Incorrect type for '");
    message.append(section);
    message.append("'. Expected `");
    message.append(expected);
    message.append("`.");
    Error::Config(message)
}

/// The configuration error for a missing required `key` in `section`.
pub fn missing_arg(key: &str, section: &str) -> (r: Error)
    ensures
        r@ == ErrorModel::Config(missing_arg_msg(key@, section@)),
{
    let mut message = String::from_str("Missing '");
    message.append(key);
    message.append("' arg for '");
    message.append(section);
    message.append("' section.");
    Error::Config(message)
}

/// The configuration error for a profile name bound twice.
fn duplicate_profile(name: &str) -> (r: Error)
    ensures
        r@ == ErrorModel::Config(duplicate_profile_msg(name@)),
{
    let mut message = String::from_str("Duplicate profile '");
    message.append(name);
    message.append("'.");
    Error::Config(message)
}

/// The first node of the given name, if any.
pub open spec fn find_node_model(ns: Seq<NodeModel>, name: Seq<char>) -> Option<NodeModel>
    decreases ns.len(),
{
    if ns.len() == 0 {
        Option::None
    } else if ns[0].name == name {
        Option::Some(ns[0])
    } else {
        find_node_model(ns.skip(1), name)
    }
}

/// The `ca` section of `ns`, read into the trust-provisioning mode:
/// `managed` must be a boolean; a managed section must carry the three
/// paths as strings; anything missing or of the wrong type is the exact
/// configuration error of that key and section.
pub open spec fn spec_parse_ca(n: NodeModel) -> Result<CAConfigView, ErrorModel> {
    match find_prop_model(n.entries, "managed"@) {
        Option::None => Err(ErrorModel::Config(missing_arg_msg("managed"@, "ca"@))),
        Option::Some(managed) => match managed {
            ValueModel::Bool(b) => if b {
                match find_prop_model(n.entries, "certificate"@) {
                    Option::None => Err(
                        ErrorModel::Config(missing_arg_msg("certificate"@, "ca"@)),
                    ),
                    Option::Some(cv) => match cv {
                        ValueModel::Str(certificate) => match find_prop_model(
                            n.entries,
                            "key"@,
                        ) {
                            Option::None => Err(
                                ErrorModel::Config(missing_arg_msg("key"@, "ca"@)),
                            ),
                            Option::Some(kv) => match kv {
                                ValueModel::Str(key) => match find_prop_model(
                                    n.entries,
                                    "crls"@,
                                ) {
                                    Option::None => Err(
                                        ErrorModel::Config(missing_arg_msg("crls"@, "ca"@)),
                                    ),
                                    Option::Some(rv) => match rv {
                                        ValueModel::Str(crls) => Ok(
                                            CAConfigView::Managed { certificate, key, crls },
                                        ),
                                        _ => Err(
                                            ErrorModel::Config(
                                                type_error_msg("ca crls=???"@, "string"@),
                                            ),
                                        ),
                                    },
                                },
                                _ => Err(
                                    ErrorModel::Config(type_error_msg("ca key=???"@, "string"@)),
                                ),
                            },
                        },
                        _ => Err(
                            ErrorModel::Config(type_error_msg("ca certificate=???"@, "string"@)),
                        ),
                    },
                }
            } else {
                Ok(CAConfigView::Unmanaged)
            },
            _ => Err(ErrorModel::Config(type_error_msg("ca managed=???"@, "bool"@))),
        },
    }
}

/// One profile node: its name, and its certificate override when the
/// `certificate` property is present — which must then be a string.
pub open spec fn spec_parse_profile(c: ChildModel) -> Result<ProfileView, ErrorModel> {
    match find_prop_model(c.entries, "certificate"@) {
        Option::None => Ok(ProfileView { name: c.name, certificate: Option::None }),
        Option::Some(v) => match v {
            ValueModel::Str(s) => Ok(
                ProfileView { name: c.name, certificate: Option::Some(s) },
            ),
            _ => Err(ErrorModel::Config(type_error_msg("profile certificate=???"@, "string"@))),
        },
    }
}

/// Whether some profile in `ps` already bears `name`.
pub open spec fn has_profile_named(ps: Seq<ProfileView>, name: Seq<char>) -> bool {
    exists|j: int| 0 <= j < ps.len() && ps[j].name == name
}

/// The profiles read off the children `cs`, appended to `acc` in order;
/// the first child whose parse fails, or whose name repeats an earlier
/// one, stops everything with that error.
pub open spec fn spec_parse_profiles(cs: Seq<ChildModel>, acc: Seq<ProfileView>) -> Result<
    Seq<ProfileView>,
    ErrorModel,
>
    decreases cs.len(),
{
    if cs.len() == 0 {
        Ok(acc)
    } else {
        match spec_parse_profile(cs[0]) {
            Err(e) => Err(e),
            Ok(p) => if has_profile_named(acc, p.name) {
                Err(ErrorModel::Config(duplicate_profile_msg(p.name)))
            } else {
                spec_parse_profiles(cs.skip(1), acc.push(p))
            },
        }
    }
}

/// The whole document read into a configuration: the `ca` section is
/// required; the profiles are the children of the `profiles` section,
/// absent meaning none.
pub open spec fn spec_parse_config(ns: Seq<NodeModel>) -> Result<ConfigView, ErrorModel> {
    match find_node_model(ns, "ca"@) {
        Option::None => Err(ErrorModel::Config("Missing 'ca' section"@)),
        Option::Some(ca_node) => match spec_parse_ca(ca_node) {
            Err(e) => Err(e),
            Ok(ca) => {
                let children = match find_node_model(ns, "profiles"@) {
                    Option::None => Seq::<ChildModel>::empty(),
                    Option::Some(p) => p.children,
                };
                match spec_parse_profiles(children, Seq::empty()) {
                    Err(e) => Err(e),
                    Ok(profiles) => Ok(ConfigView { ca, profiles }),
                }
            },
        },
    }
}

/// The first node of the given name, if any.
fn find_node<'a>(nodes: &'a Vec<NodeData>, name: &String) -> (r: Option<&'a NodeData>)
    ensures
        match r {
            Option::Some(n) => find_node_model(nodes_model(nodes@), name@) == Option::Some(n@),
            Option::None => find_node_model(nodes_model(nodes@), name@) is None,
        },
{
    let ghost ns = nodes_model(nodes@);
    proof {
        assert(ns.skip(0) =~= ns);
    }
    let mut i: usize = 0;
    while i < nodes.len()
        invariant
            i <= nodes.len(),
            ns == nodes_model(nodes@),
            ns.len() == nodes@.len(),
            find_node_model(ns, name@) == find_node_model(ns.skip(i as int), name@),
            forall|j: int| 0 <= j < i ==> ns[j].name != name@,
        decreases nodes@.len() - i,
    {
        assert(ns.skip(i as int)[0] == ns[i as int]);
        assert(ns[i as int] == nodes@[i as int]@);
        if nodes[i].name == *name {
            return Option::Some(&nodes[i]);
        }
        assert(ns.skip(i as int).skip(1) =~= ns.skip(i as int + 1));
        i = i + 1;
    }
    assert(ns.skip(i as int).len() == 0);
    Option::None
}

/// The value of the rightmost entry bound to the property `key`, if any;
/// positional (unnamed) entries never match.
fn find_prop<'a>(entries: &'a Vec<EntryData>, key: &String) -> (r: Option<&'a ValueData>)
    ensures
        match r {
            Option::Some(v) => find_prop_model(
                entries@.map_values(|e: EntryData| e@),
                key@,
            ) == Option::Some(v@),
            Option::None => find_prop_model(entries@.map_values(|e: EntryData| e@), key@) is None,
        },
{
    let ghost es = entries@.map_values(|e: EntryData| e@);
    proof {
        assert(es.take(es.len() as int) =~= es);
    }
    let mut i: usize = entries.len();
    while i > 0
        invariant
            i <= entries.len(),
            es == entries@.map_values(|e: EntryData| e@),
            es.len() == entries@.len(),
            find_prop_model(es, key@) == find_prop_model(es.take(i as int), key@),
        decreases i,
    {
        i = i - 1;
        assert(es.take(i as int + 1)[i as int] == es[i as int]);
        assert(es[i as int] == entries@[i as int]@);
        assert(es.take(i as int + 1).drop_last() =~= es.take(i as int));
        match &entries[i].name {
            Option::Some(n) => {
                if *n == *key {
                    return Option::Some(&entries[i].value);
                }
            },
            Option::None => {},
        }
    }
    assert(es.take(0).len() == 0);
    Option::None
}

/// Reads the `ca` section node into the trust-provisioning mode.
fn parse_ca(node: &NodeData) -> (r: Result<CAConfig, Error>)
    ensures
        match spec_parse_ca(node@) {
            Ok(c) => r matches Ok(got) && got@ == c,
            Err(e) => r matches Err(got) && got@ == e,
        },
{
    let managed = match find_prop(&node.entries, &String::from_str("managed")) {
        Option::Some(v) => match v {
            ValueData::Bool(b) => *b,
            _ => {
                return Err(type_error("ca managed=???", "bool"));
            },
        },
        Option::None => {
            return Err(missing_arg("managed", "ca"));
        },
    };
    if !managed {
        return Ok(CAConfig::Unmanaged);
    }
    let certificate = match find_prop(&node.entries, &String::from_str("certificate")) {
        Option::Some(v) => match v {
            ValueData::Str(s) => s.clone(),
            _ => {
                return Err(type_error("ca certificate=???", "string"));
            },
        },
        Option::None => {
            return Err(missing_arg("certificate", "ca"));
        },
    };
    let key = match find_prop(&node.entries, &String::from_str("key")) {
        Option::Some(v) => match v {
            ValueData::Str(s) => s.clone(),
            _ => {
                return Err(type_error("ca key=???", "string"));
            },
        },
        Option::None => {
            return Err(missing_arg("key", "ca"));
        },
    };
    let crls = match find_prop(&node.entries, &String::from_str("crls")) {
        Option::Some(v) => match v {
            ValueData::Str(s) => s.clone(),
            _ => {
                return Err(type_error("ca crls=???", "string"));
            },
        },
        Option::None => {
            return Err(missing_arg("crls", "ca"));
        },
    };
    Ok(CAConfig::Managed { certificate, key, crls })
}

/// Reads one profile node.
fn parse_profile(c: &ChildData) -> (r: Result<ProfileConfig, Error>)
    ensures
        match spec_parse_profile(c@) {
            Ok(p) => r matches Ok(got) && got@ == p,
            Err(e) => r matches Err(got) && got@ == e,
        },
{
    let certificate = match find_prop(&c.entries, &String::from_str("certificate")) {
        Option::Some(v) => match v {
            ValueData::Str(s) => Option::Some(s.clone()),
            _ => {
                return Err(type_error("profile certificate=???", "string"));
            },
        },
        Option::None => Option::None,
    };
    Ok(ProfileConfig { name: c.name.clone(), certificate })
}

/// Whether some already collected profile bears `name`.
fn profiles_contain(ps: &Vec<ProfileConfig>, name: &String) -> (r: bool)
    ensures
        r == has_profile_named(ps@.map_values(|p: ProfileConfig| p@), name@),
{
    let ghost m = ps@.map_values(|p: ProfileConfig| p@);
    let mut i: usize = 0;
    while i < ps.len()
        invariant
            i <= ps.len(),
            m == ps@.map_values(|p: ProfileConfig| p@),
            m.len() == ps@.len(),
            forall|j: int| 0 <= j < i ==> m[j].name != name@,
        decreases ps@.len() - i,
    {
        assert(m[i as int] == ps@[i as int]@);
        if ps[i].name == *name {
            assert(0 <= i < m.len() && m[i as int].name == name@);
            assert(has_profile_named(m, name@));
            return true;
        }
        i = i + 1;
    }
    false
}

/// Reads the profile children in order, failing on the first child that
/// does not parse or that repeats a name.
fn parse_profiles(children: &Vec<ChildData>) -> (r: Result<Vec<ProfileConfig>, Error>)
    ensures
        match spec_parse_profiles(
            children@.map_values(|c: ChildData| c@),
            Seq::empty(),
        ) {
            Ok(ps) => r matches Ok(got) && got@.map_values(|p: ProfileConfig| p@) == ps,
            Err(e) => r matches Err(got) && got@ == e,
        },
{
    let ghost cs = children@.map_values(|c: ChildData| c@);
    let mut out: Vec<ProfileConfig> = Vec::new();
    proof {
        assert(cs.skip(0) =~= cs);
        assert(out@.map_values(|p: ProfileConfig| p@) =~= Seq::<ProfileView>::empty());
    }
    let mut i: usize = 0;
    while i < children.len()
        invariant
            i <= children.len(),
            cs == children@.map_values(|c: ChildData| c@),
            cs.len() == children@.len(),
            spec_parse_profiles(cs, Seq::empty()) == spec_parse_profiles(
                cs.skip(i as int),
                out@.map_values(|p: ProfileConfig| p@),
            ),
        decreases children@.len() - i,
    {
        assert(cs.skip(i as int)[0] == cs[i as int]);
        assert(cs[i as int] == children@[i as int]@);
        let profile = match parse_profile(&children[i]) {
            Ok(p) => p,
            Err(e) => {
                return Err(e);
            },
        };
        if profiles_contain(&out, &profile.name) {
            return Err(duplicate_profile(profile.name.as_str()));
        }
        let ghost prev = out@.map_values(|p: ProfileConfig| p@);
        let ghost pm = profile@;
        out.push(profile);
        assert(out@.map_values(|p: ProfileConfig| p@) =~= prev.push(pm));
        assert(cs.skip(i as int).skip(1) =~= cs.skip(i as int + 1));
        i = i + 1;
    }
    assert(cs.skip(i as int).len() == 0);
    Ok(out)
}

impl Config {
    /// Reads a whole plain document into a configuration, exactly as
    /// `spec_parse_config` describes: the required `ca` section first,
    /// then the profiles under the `profiles` section, names unique.
    pub fn from_document(nodes: &Vec<NodeData>) -> (r: Result<Config, Error>)
        ensures
            match spec_parse_config(nodes_model(nodes@)) {
                Ok(c) => r matches Ok(got) && got@ == c,
                Err(e) => r matches Err(got) && got@ == e,
            },
    {
        let ca_node = match find_node(nodes, &String::from_str("ca")) {
            Option::Some(n) => n,
            Option::None => {
                return Err(Error::Config(String::from_str("Missing 'ca' section")));
            },
        };
        let ca = match parse_ca(ca_node) {
            Ok(c) => c,
            Err(e) => {
                return Err(e);
            },
        };
        let empty_children: Vec<ChildData> = Vec::new();
        let profiles = match find_node(nodes, &String::from_str("profiles")) {
            Option::Some(p) => match parse_profiles(&p.children) {
                Ok(ps) => ps,
                Err(e) => {
                    return Err(e);
                },
            },
            Option::None => {
                assert(empty_children@.map_values(|c: ChildData| c@) =~= Seq::<
                    ChildModel,
                >::empty());
                match parse_profiles(&empty_children) {
                    Ok(ps) => ps,
                    Err(e) => {
                        return Err(e);
                    },
                }
            },
        };
        Ok(Config { ca, profiles })
    }
}

/// Parses a configuration text and reads it into a configuration: a text
/// the document format rejects is a `ConfigParse` error, and an accepted
/// text yields exactly what `spec_parse_config` says of its document.
pub fn parse_config(text: &str) -> (r: Result<Config, Error>)
    ensures
        !kdl_parses(text@) ==> (r matches Err(e) && e is ConfigParse),
        kdl_parses(text@) ==> match spec_parse_config(kdl_document_model(text@)) {
            Ok(c) => r matches Ok(got) && got@ == c,
            Err(e) => r matches Err(got) && got@ == e,
        },
{
    let nodes = match parse_document(text) {
        Ok(ns) => ns,
        Err(e) => {
            return Err(e);
        },
    };
    Config::from_document(&nodes)
}

/// The default configuration document, written out on first start: a
/// managed authority with its three files beside the configuration, and
/// the single profile `default`.
pub fn default_config() -> (r: String)
    ensures
        r@ == default_config_model(),
{
    String::from_str(
        "// The ca may be externally managed\nca managed=true \\\n   certificate=\"./root-ca.cert\" \\\n   key=\"./root-ca.key\" \\\n   crls=\"./root-ca.crl\"\n\n\nprofiles {\n    default\n}\n",
    )
}

/// The exact text of the default configuration document.
pub open spec fn default_config_model() -> Seq<char> {
    "// The ca may be externally managed\nca managed=true \\\n   certificate=\"./root-ca.cert\" \\\n   key=\"./root-ca.key\" \\\n   crls=\"./root-ca.crl\"\n\n\nprofiles {\n    default\n}\n"@
}

#[verifier::external_type_specification]
#[verifier::external_body]
pub struct ExBaseDirectories(xdg::BaseDirectories);

/// Relies on xdg's `BaseDirectories::with_prefix`: resolves the
/// platform's base directories for the given application prefix from the
/// process environment. The outcome depends on that environment; nothing
/// more is claimed. A failure is reported as the debug text of the xdg
/// error.
#[verifier::external_body]
fn xdg_base_directories(prefix: &str) -> (r: Result<xdg::BaseDirectories, String>)
{
    xdg::BaseDirectories::with_prefix(prefix).map_err(|e| format!("{e:?}"))
}

/// Relies on xdg's `BaseDirectories::get_config_home`: the user-specific
/// configuration directory of the resolved base directories, as text.
#[verifier::external_body]
fn xdg_config_home(base: &xdg::BaseDirectories) -> (r: String) {
    base.get_config_home().to_string_lossy().into_owned()
}

/// `dir` and `file`, joined with the path separator.
pub open spec fn joined_path(dir: Seq<char>, file: Seq<char>) -> Seq<char> {
    dir + "/"@ + file
}

/// Joins a file name onto a directory with the path separator.
fn join_path(dir: String, file: &str) -> (r: String)
    ensures
        r@ == joined_path(dir@, file@),
{
    let mut r = dir;
    r.append("/");
    r.append(file);
    r
}

/// The configuration error wrapping a directory-resolution failure.
fn config_error(detail: &str) -> (r: Error)
    ensures
        r is Config,
{
    let mut message = String::from_str("Configuration error: ");
    message.append(detail);
    Error::Config(message)
}

/// The per-user configuration directory of this application, resolved
/// from the process environment.
pub fn config_dir_path() -> (r: Result<String, Error>)
    ensures
        r matches Err(e) ==> e is Config,
{
    match xdg_base_directories(APPNAME) {
        Ok(base) => Ok(xdg_config_home(&base)),
        Err(detail) => Err(config_error(detail.as_str())),
    }
}

/// The absolute location of the CA signing key, `root-ca.key`, within
/// this application's configuration directory.
pub fn ca_key_file() -> (r: Result<String, Error>)
    ensures
        r matches Ok(p) ==> exists|dir: Seq<char>| p@ == joined_path(dir, "root-ca.key"@),
        r matches Err(e) ==> e is Config,
{
    match config_dir_path() {
        Ok(dir) => {
            let p = join_path(dir, "root-ca.key");
            Ok(p)
        },
        Err(e) => Err(e),
    }
}

/// The absolute location of the CA certificate, `root-ca.cert`, within
/// this application's configuration directory.
pub fn ca_certificate_file() -> (r: Result<String, Error>)
    ensures
        r matches Ok(p) ==> exists|dir: Seq<char>| p@ == joined_path(dir, "root-ca.cert"@),
        r matches Err(e) ==> e is Config,
{
    match config_dir_path() {
        Ok(dir) => {
            let p = join_path(dir, "root-ca.cert");
            Ok(p)
        },
        Err(e) => Err(e),
    }
}

/// The absolute location of the configuration document, `config.kdl`,
/// within this application's configuration directory.
pub fn default_config_path() -> (r: Result<String, Error>)
    ensures
        r matches Ok(p) ==> exists|dir: Seq<char>| p@ == joined_path(dir, "config.kdl"@),
        r matches Err(e) ==> e is Config,
{
    match config_dir_path() {
        Ok(dir) => {
            let p = join_path(dir, "config.kdl");
            Ok(p)
        },
        Err(e) => Err(e),
    }
}

} // verus!
