//! The configuration: the schema of its files, and how they merge with the
//! invocation into one [`Config`].

use crate::args::{clone_optional, optional_view, Args, ArgsModel};
use crate::document::{parse, parsed, texts, Node, SyntaxError, SyntaxFault, TomlValue};
use crate::names::NameSet;
use vstd::prelude::*;

verus! {

/// Days before expiry at which a certificate is renewed, unless the main
/// file says otherwise.
pub const DEFAULT_RENEW_IF_DAYS_LEFT: i64 = 30;

/// The section `acme` of the main file.
#[derive(Debug, PartialEq)]
pub struct AcmeConfig {
    pub acme_email: Option<String>,
    pub acme_url: Option<String>,
    pub renew_if_days_left: Option<i64>,
}

/// The model of [`AcmeConfig`].
pub struct AcmeModel {
    pub acme_email: Option<Seq<char>>,
    pub acme_url: Option<Seq<char>>,
    pub renew_if_days_left: Option<i64>,
}

impl View for AcmeConfig {
    type V = AcmeModel;

    open spec fn view(&self) -> AcmeModel {
        AcmeModel {
            acme_email: optional_view(self.acme_email),
            acme_url: optional_view(self.acme_url),
            renew_if_days_left: self.renew_if_days_left,
        }
    }
}

impl AcmeModel {
    /// The section with no key set.
    pub open spec fn empty() -> AcmeModel {
        AcmeModel { acme_email: None, acme_url: None, renew_if_days_left: None }
    }
}

impl Default for AcmeConfig {
    fn default() -> (r: AcmeConfig)
        ensures
            r@ == AcmeModel::empty(),
    {
        AcmeConfig { acme_email: None, acme_url: None, renew_if_days_left: None }
    }
}

/// The section `system` of the main file.
#[derive(Debug, PartialEq)]
pub struct SystemConfig {
    pub group: Option<String>,
    pub exec_cmds: Vec<String>,
    pub exec_extra: Vec<String>,
}

/// The model of [`SystemConfig`].
pub struct SystemModel {
    pub group: Option<Seq<char>>,
    pub exec_cmds: Seq<Seq<char>>,
    pub exec_extra: Seq<Seq<char>>,
}

impl View for SystemConfig {
    type V = SystemModel;

    open spec fn view(&self) -> SystemModel {
        SystemModel {
            group: optional_view(self.group),
            exec_cmds: texts(self.exec_cmds@),
            exec_extra: texts(self.exec_extra@),
        }
    }
}

impl SystemModel {
    /// The section with no key set.
    pub open spec fn empty() -> SystemModel {
        SystemModel { group: None, exec_cmds: Seq::empty(), exec_extra: Seq::empty() }
    }
}

impl Default for SystemConfig {
    fn default() -> (r: SystemConfig)
        ensures
            r@ == SystemModel::empty(),
    {
        let r = SystemConfig { group: None, exec_cmds: Vec::new(), exec_extra: Vec::new() };
        assert(texts(r.exec_cmds@) =~= Seq::empty());
        assert(texts(r.exec_extra@) =~= Seq::empty());
        r
    }
}

/// The main file.
#[derive(Debug, PartialEq)]
pub struct ConfigFile {
    pub acme: AcmeConfig,
    pub system: SystemConfig,
}

/// The model of [`ConfigFile`].
pub struct ConfigFileModel {
    pub acme: AcmeModel,
    pub system: SystemModel,
}

impl View for ConfigFile {
    type V = ConfigFileModel;

    open spec fn view(&self) -> ConfigFileModel {
        ConfigFileModel { acme: self.acme@, system: self.system@ }
    }
}

/// The settings of one certificate.
#[derive(Debug, PartialEq, Clone)]
pub struct CertConfig {
    pub name: String,
    pub dns_names: Vec<String>,
    pub must_staple: bool,
    pub exec_cmds: Vec<String>,
}

/// The model of [`CertConfig`].
pub struct CertModel {
    pub name: Seq<char>,
    pub dns_names: Seq<Seq<char>>,
    pub must_staple: bool,
    pub exec_cmds: Seq<Seq<char>>,
}

impl View for CertConfig {
    type V = CertModel;

    open spec fn view(&self) -> CertModel {
        CertModel {
            name: self.name@,
            dns_names: texts(self.dns_names@),
            must_staple: self.must_staple,
            exec_cmds: texts(self.exec_cmds@),
        }
    }
}

/// One file of the certificate directory.
#[derive(Debug, PartialEq)]
pub struct CertConfigFile {
    pub cert: CertConfig,
}

/// The model of [`CertConfigFile`].
pub struct CertFileModel {
    pub cert: CertModel,
}

impl View for CertConfigFile {
    type V = CertFileModel;

    open spec fn view(&self) -> CertFileModel {
        CertFileModel { cert: self.cert@ }
    }
}

/// A type that a TOML tree can be read as.
pub trait FromDocument: View + Sized {
    /// What `doc` holds for this type: the model of the value, or the key
    /// that is missing or holds the wrong kind of value. Keys are looked at
    /// in the order of the type's fields, and keys that the type does not
    /// know are passed over.
    spec fn decoded(doc: Node) -> Result<Self::V, Seq<char>>;

    /// Reads a value of this type from `doc`.
    fn from_document(doc: &TomlValue) -> (r: Result<Self, String>)
        ensures
            match Self::decoded(doc@) {
                Ok(model) => r matches Ok(value) && value@ == model,
                Err(key) => r matches Err(k) && k@ == key,
            },
    ;
}

impl FromDocument for AcmeConfig {
    open spec fn decoded(doc: Node) -> Result<AcmeModel, Seq<char>> {
        match doc.optional_text("acme_email"@) {
            Err(key) => Err(key),
            Ok(acme_email) => match doc.optional_text("acme_url"@) {
                Err(key) => Err(key),
                Ok(acme_url) => match doc.optional_integer("renew_if_days_left"@) {
                    Err(key) => Err(key),
                    Ok(renew_if_days_left) => Ok(
                        AcmeModel { acme_email, acme_url, renew_if_days_left },
                    ),
                },
            },
        }
    }

    fn from_document(doc: &TomlValue) -> (r: Result<AcmeConfig, String>) {
        let acme_email = match doc.text_at("acme_email") {
            Ok(v) => v,
            Err(key) => {
                return Err(key);
            },
        };
        let acme_url = match doc.text_at("acme_url") {
            Ok(v) => v,
            Err(key) => {
                return Err(key);
            },
        };
        let renew_if_days_left = match doc.integer_at("renew_if_days_left") {
            Ok(v) => v,
            Err(key) => {
                return Err(key);
            },
        };
        Ok(AcmeConfig { acme_email, acme_url, renew_if_days_left })
    }
}

/// A list that may be left out: none stands for the empty list.
pub open spec fn or_empty(list: Option<Seq<Seq<char>>>) -> Seq<Seq<char>> {
    match list {
        Some(l) => l,
        None => Seq::empty(),
    }
}

fn list_or_empty(list: Option<Vec<String>>) -> (r: Vec<String>)
    ensures
        texts(r@) == or_empty(
            match list {
                Some(l) => Some(texts(l@)),
                None => None,
            },
        ),
{
    match list {
        Some(l) => l,
        None => {
            let r: Vec<String> = Vec::new();
            assert(texts(r@) =~= Seq::empty());
            r
        },
    }
}

impl FromDocument for SystemConfig {
    open spec fn decoded(doc: Node) -> Result<SystemModel, Seq<char>> {
        match doc.optional_text("group"@) {
            Err(key) => Err(key),
            Ok(group) => match doc.optional_text_list("exec"@) {
                Err(key) => Err(key),
                Ok(exec_cmds) => match doc.optional_text_list("exec_extra"@) {
                    Err(key) => Err(key),
                    Ok(exec_extra) => Ok(
                        SystemModel {
                            group,
                            exec_cmds: or_empty(exec_cmds),
                            exec_extra: or_empty(exec_extra),
                        },
                    ),
                },
            },
        }
    }

    fn from_document(doc: &TomlValue) -> (r: Result<SystemConfig, String>) {
        let group = match doc.text_at("group") {
            Ok(v) => v,
            Err(key) => {
                return Err(key);
            },
        };
        let exec_cmds = match doc.text_list_at("exec") {
            Ok(v) => list_or_empty(v),
            Err(key) => {
                return Err(key);
            },
        };
        let exec_extra = match doc.text_list_at("exec_extra") {
            Ok(v) => list_or_empty(v),
            Err(key) => {
                return Err(key);
            },
        };
        Ok(SystemConfig { group, exec_cmds, exec_extra })
    }
}

impl FromDocument for ConfigFile {
    open spec fn decoded(doc: Node) -> Result<ConfigFileModel, Seq<char>> {
        match doc.optional_table("acme"@) {
            Err(key) => Err(key),
            Ok(acme_section) => match (match acme_section {
                Some(section) => AcmeConfig::decoded(section),
                None => Ok(AcmeModel::empty()),
            }) {
                Err(key) => Err(key),
                Ok(acme) => match doc.optional_table("system"@) {
                    Err(key) => Err(key),
                    Ok(system_section) => match (match system_section {
                        Some(section) => SystemConfig::decoded(section),
                        None => Ok(SystemModel::empty()),
                    }) {
                        Err(key) => Err(key),
                        Ok(system) => Ok(ConfigFileModel { acme, system }),
                    },
                },
            },
        }
    }

    fn from_document(doc: &TomlValue) -> (r: Result<ConfigFile, String>) {
        let acme = match doc.table_at("acme") {
            Err(key) => {
                return Err(key);
            },
            Ok(Some(section)) => match AcmeConfig::from_document(section) {
                Ok(v) => v,
                Err(key) => {
                    return Err(key);
                },
            },
            Ok(None) => AcmeConfig::default(),
        };
        let system = match doc.table_at("system") {
            Err(key) => {
                return Err(key);
            },
            Ok(Some(section)) => match SystemConfig::from_document(section) {
                Ok(v) => v,
                Err(key) => {
                    return Err(key);
                },
            },
            Ok(None) => SystemConfig::default(),
        };
        Ok(ConfigFile { acme, system })
    }
}

impl FromDocument for CertConfig {
    open spec fn decoded(doc: Node) -> Result<CertModel, Seq<char>> {
        match doc.optional_text("name"@) {
            Err(key) => Err(key),
            Ok(None) => Err("name"@),
            Ok(Some(name)) => match doc.optional_text_list("dns_names"@) {
                Err(key) => Err(key),
                Ok(None) => Err("dns_names"@),
                Ok(Some(dns_names)) => match doc.optional_boolean("must_staple"@) {
                    Err(key) => Err(key),
                    Ok(must_staple) => match doc.optional_text_list("exec"@) {
                        Err(key) => Err(key),
                        Ok(exec_cmds) => Ok(
                            CertModel {
                                name,
                                dns_names,
                                must_staple: must_staple == Some(true),
                                exec_cmds: or_empty(exec_cmds),
                            },
                        ),
                    },
                },
            },
        }
    }

    fn from_document(doc: &TomlValue) -> (r: Result<CertConfig, String>) {
        let name = match doc.text_at("name") {
            Ok(Some(v)) => v,
            Ok(None) => {
                return Err("name".to_owned());
            },
            Err(key) => {
                return Err(key);
            },
        };
        let dns_names = match doc.text_list_at("dns_names") {
            Ok(Some(v)) => v,
            Ok(None) => {
                return Err("dns_names".to_owned());
            },
            Err(key) => {
                return Err(key);
            },
        };
        let must_staple = match doc.boolean_at("must_staple") {
            Ok(Some(v)) => v,
            Ok(None) => false,
            Err(key) => {
                return Err(key);
            },
        };
        let exec_cmds = match doc.text_list_at("exec") {
            Ok(v) => list_or_empty(v),
            Err(key) => {
                return Err(key);
            },
        };
        Ok(CertConfig { name, dns_names, must_staple, exec_cmds })
    }
}

impl FromDocument for CertConfigFile {
    open spec fn decoded(doc: Node) -> Result<CertFileModel, Seq<char>> {
        match doc.optional_table("cert"@) {
            Err(key) => Err(key),
            Ok(None) => Err("cert"@),
            Ok(Some(section)) => match CertConfig::decoded(section) {
                Err(key) => Err(key),
                Ok(cert) => Ok(CertFileModel { cert }),
            },
        }
    }

    fn from_document(doc: &TomlValue) -> (r: Result<CertConfigFile, String>) {
        match doc.table_at("cert") {
            Err(key) => Err(key),
            Ok(None) => Err("cert".to_owned()),
            Ok(Some(section)) => match CertConfig::from_document(section) {
                Ok(cert) => Ok(CertConfigFile { cert }),
                Err(key) => Err(key),
            },
        }
    }
}

/// Why a text gives no value.
#[derive(Debug, PartialEq)]
pub enum ParseError {
    /// The text is no document.
    Syntax(SyntaxError),
    /// The document does not fit the type; with the key at fault.
    Schema(String),
}

/// The model of [`ParseError`].
pub enum ParseFault {
    Syntax(SyntaxFault),
    Schema(Seq<char>),
}

impl View for ParseError {
    type V = ParseFault;

    open spec fn view(&self) -> ParseFault {
        match self {
            ParseError::Syntax(error) => ParseFault::Syntax(error@),
            ParseError::Schema(key) => ParseFault::Schema(key@),
        }
    }
}

/// What a text holds for the type `T`: the model of the value, or the
/// reason for which the text is no document, or the key at fault.
pub open spec fn loaded_str<T: FromDocument>(text: Seq<char>) -> Result<T::V, ParseFault> {
    match parsed(text) {
        Err(fault) => Err(ParseFault::Syntax(fault)),
        Ok(doc) => match T::decoded(doc) {
            Ok(model) => Ok(model),
            Err(key) => Err(ParseFault::Schema(key)),
        },
    }
}

/// Reads a value of type `T` from a TOML text.
pub fn load_str<T: FromDocument>(s: &str) -> (r: Result<T, ParseError>)
    ensures
        match loaded_str::<T>(s@) {
            Ok(model) => r matches Ok(value) && value@ == model,
            Err(fault) => r matches Err(e) && e@ == fault,
        },
{
    match parse(s) {
        Err(error) => Err(ParseError::Syntax(error)),
        Ok(doc) => match T::from_document(&doc) {
            Ok(value) => Ok(value),
            Err(key) => Err(ParseError::Schema(key)),
        },
    }
}

/// What went wrong with a configuration file.
#[derive(Debug, PartialEq)]
pub enum ConfigErrorKind {
    /// The file or directory could not be read.
    Unreadable,
    /// The file was read and is not what it should be.
    Malformed(ParseError),
}

/// A configuration file that cannot be used, and why.
#[derive(Debug, PartialEq)]
pub struct ConfigError {
    /// The path of the file or directory at fault.
    pub path: String,
    pub kind: ConfigErrorKind,
}

/// The model of [`ConfigErrorKind`].
pub enum FaultKind {
    Unreadable,
    Malformed(ParseFault),
}

/// The model of [`ConfigError`].
pub struct Fault {
    pub path: Seq<char>,
    pub kind: FaultKind,
}

impl View for ConfigError {
    type V = Fault;

    open spec fn view(&self) -> Fault {
        Fault {
            path: self.path@,
            kind: match self.kind {
                ConfigErrorKind::Unreadable => FaultKind::Unreadable,
                ConfigErrorKind::Malformed(error) => FaultKind::Malformed(error@),
            },
        }
    }
}

/// What the file at `path` holds for the type `T`, where `text` is what was
/// read from it, or none if it could not be read.
pub open spec fn loaded_file<T: FromDocument>(path: Seq<char>, text: Option<Seq<char>>) -> Result<
    T::V,
    Fault,
> {
    match text {
        None => Err(Fault { path, kind: FaultKind::Unreadable }),
        Some(t) => match loaded_str::<T>(t) {
            Ok(model) => Ok(model),
            Err(fault) => Err(Fault { path, kind: FaultKind::Malformed(fault) }),
        },
    }
}

/// Reads a value of type `T` from what was read of the file at `path`.
pub fn load_file<T: FromDocument>(path: &str, text: &Option<String>) -> (r: Result<T, ConfigError>)
    ensures
        match loaded_file::<T>(path@, optional_view(*text)) {
            Ok(model) => r matches Ok(value) && value@ == model,
            Err(fault) => r matches Err(e) && e@ == fault,
        },
{
    match text {
        None => Err(ConfigError { path: path.to_owned(), kind: ConfigErrorKind::Unreadable }),
        Some(t) => match load_str::<T>(t.as_str()) {
            Ok(value) => Ok(value),
            Err(error) => Err(
                ConfigError { path: path.to_owned(), kind: ConfigErrorKind::Malformed(error) },
            ),
        },
    }
}

/// Whether the last component of `path` has the extension `conf`: the path
/// ends in `.conf`, and what stands before the dot belongs to the same
/// component.
pub open spec fn is_conf_path(path: Seq<char>) -> bool {
    let n = path.len() as int;
    n >= 6 && path[n - 6] != '/' && path.subrange(n - 5, n) == seq!['.', 'c', 'o', 'n', 'f']
}

/// Whether the file at `path` is taken for a certificate's configuration.
pub fn has_conf_extension(path: &str) -> (r: bool)
    ensures
        r == is_conf_path(path@),
{
    let n = path.unicode_len();
    if n < 6 {
        return false;
    }
    let r = path.get_char(n - 6) != '/' && path.get_char(n - 5) == '.' && path.get_char(n - 4)
        == 'c' && path.get_char(n - 3) == 'o' && path.get_char(n - 2) == 'n' && path.get_char(n - 1)
        == 'f';
    proof {
        let tail = path@.subrange(n - 5, n as int);
        let suffix = seq!['.', 'c', 'o', 'n', 'f'];
        if r {
            assert(tail =~= suffix);
        } else if path@[n - 6] != '/' {
            assert(tail[0] == path@[n - 5]);
            assert(tail[1] == path@[n - 4]);
            assert(tail[2] == path@[n - 3]);
            assert(tail[3] == path@[n - 2]);
            assert(tail[4] == path@[n - 1]);
            assert(tail != suffix);
        }
    }
    r
}

/// One entry of the certificate directory, as it was found.
#[derive(Debug, PartialEq)]
pub struct SourceFile {
    /// The path of the entry.
    pub path: String,
    /// What the file holds; none if it was not read or could not be.
    pub text: Option<String>,
}

/// The models of a sequence of certificate files, one for one.
pub open spec fn file_models(files: Seq<CertConfigFile>) -> Seq<CertFileModel> {
    Seq::new(files.len(), |i: int| files[i]@)
}

/// What a directory listing holds. Entries without the extension are passed
/// over; the others are read in order, and the first that fails decides.
pub open spec fn loaded_folder(files: Seq<SourceFile>) -> Result<Seq<CertFileModel>, Fault>
    decreases files.len(),
{
    if files.len() == 0 {
        Ok(Seq::empty())
    } else {
        match loaded_folder(files.drop_last()) {
            Err(fault) => Err(fault),
            Ok(before) => {
                let file = files.last();
                if !is_conf_path(file.path@) {
                    Ok(before)
                } else {
                    match loaded_file::<CertConfigFile>(file.path@, optional_view(file.text)) {
                        Err(fault) => Err(fault),
                        Ok(model) => Ok(before.push(model)),
                    }
                }
            },
        }
    }
}

/// A failure on a part of the listing is the failure of the whole.
proof fn lemma_fault_persists(files: Seq<SourceFile>, n: int)
    requires
        0 <= n <= files.len(),
        loaded_folder(files.take(n)) is Err,
    ensures
        loaded_folder(files) == loaded_folder(files.take(n)),
    decreases files.len(),
{
    if n == files.len() {
        assert(files.take(n) =~= files);
    } else {
        assert(files.drop_last().take(n) =~= files.take(n));
        lemma_fault_persists(files.drop_last(), n);
    }
}

/// Reads the certificate files of a directory listing.
pub fn load_from_folder(files: &Vec<SourceFile>) -> (r: Result<Vec<CertConfigFile>, ConfigError>)
    ensures
        match loaded_folder(files@) {
            Ok(models) => r matches Ok(configs) && file_models(configs@) == models,
            Err(fault) => r matches Err(e) && e@ == fault,
        },
{
    let mut configs: Vec<CertConfigFile> = Vec::new();
    let mut i: usize = 0;
    assert(files@.take(0) =~= Seq::empty());
    assert(file_models(configs@) =~= Seq::empty());
    while i < files.len()
        invariant
            i <= files.len(),
            loaded_folder(files@.take(i as int)) == Ok::<Seq<CertFileModel>, Fault>(
                file_models(configs@),
            ),
        decreases files.len() - i,
    {
        let file = &files[i];
        proof {
            assert(files@.take(i + 1).drop_last() =~= files@.take(i as int));
            assert(files@.take(i + 1).last() == files@[i as int]);
        }
        if has_conf_extension(file.path.as_str()) {
            match load_file::<CertConfigFile>(file.path.as_str(), &file.text) {
                Ok(config) => {
                    let ghost before = file_models(configs@);
                    configs.push(config);
                    assert(file_models(configs@) =~= before.push(config@));
                },
                Err(error) => {
                    proof {
                        lemma_fault_persists(files@, i + 1);
                    }
                    return Err(error);
                },
            }
        }
        i += 1;
    }
    assert(files@.take(i as int) =~= files@);
    Ok(configs)
}

/// The configuration that the program runs with.
#[derive(Debug, Clone)]
pub struct Config {
    pub certs: Vec<CertConfig>,
    pub acme_email: Option<String>,
    pub acme_url: String,
    pub renew_if_days_left: i64,
    pub data_dir: String,
    pub chall_dir: String,
    pub group: Option<String>,
    pub exec_cmds: Vec<String>,
    pub exec_extra: Vec<String>,
}

/// The model of [`Config`].
pub struct ConfigModel {
    pub certs: Seq<CertModel>,
    pub acme_email: Option<Seq<char>>,
    pub acme_url: Seq<char>,
    pub renew_if_days_left: i64,
    pub data_dir: Seq<char>,
    pub chall_dir: Seq<char>,
    pub group: Option<Seq<char>>,
    pub exec_cmds: Seq<Seq<char>>,
    pub exec_extra: Seq<Seq<char>>,
}

/// The models of a sequence of certificates, one for one.
pub open spec fn cert_models(certs: Seq<CertConfig>) -> Seq<CertModel> {
    Seq::new(certs.len(), |i: int| certs[i]@)
}

impl View for Config {
    type V = ConfigModel;

    open spec fn view(&self) -> ConfigModel {
        ConfigModel {
            certs: cert_models(self.certs@),
            acme_email: optional_view(self.acme_email),
            acme_url: self.acme_url@,
            renew_if_days_left: self.renew_if_days_left,
            data_dir: self.data_dir@,
            chall_dir: self.chall_dir@,
            group: optional_view(self.group),
            exec_cmds: texts(self.exec_cmds@),
            exec_extra: texts(self.exec_extra@),
        }
    }
}

/// The certificates of a sequence of certificate files, one for one.
pub open spec fn certs_of(files: Seq<CertFileModel>) -> Seq<CertModel> {
    Seq::new(files.len(), |i: int| files[i].cert)
}

/// How the invocation, the main file and the certificate files merge. The
/// contact address of the invocation wins over that of the file; the URL and
/// the two directories come from the invocation alone.
pub open spec fn merged(args: ArgsModel, file: ConfigFileModel, certs: Seq<CertFileModel>) -> ConfigModel {
    ConfigModel {
        certs: certs_of(certs),
        acme_email: if args.acme_email is Some {
            args.acme_email
        } else {
            file.acme.acme_email
        },
        acme_url: args.acme_url,
        renew_if_days_left: match file.acme.renew_if_days_left {
            Some(days) => days,
            None => DEFAULT_RENEW_IF_DAYS_LEFT,
        },
        data_dir: args.data_dir,
        chall_dir: args.chall_dir,
        group: file.system.group,
        exec_cmds: file.system.exec_cmds,
        exec_extra: file.system.exec_extra,
    }
}

/// What was read for one load.
#[derive(Debug, PartialEq)]
pub struct Sources {
    /// The text of the main file; none if it could not be read.
    pub main: Option<String>,
    /// The entries of the certificate directory; none if it could not be
    /// listed.
    pub folder: Option<Vec<SourceFile>>,
}

/// What one load gives: the main file decides first, then the listing, then
/// the certificate files in order.
pub open spec fn loaded(args: Args, sources: Sources) -> Result<ConfigModel, Fault> {
    match loaded_file::<ConfigFile>(args.config@, optional_view(sources.main)) {
        Err(fault) => Err(fault),
        Ok(file) => match sources.folder {
            None => Err(Fault { path: args.config_dir@, kind: FaultKind::Unreadable }),
            Some(files) => match loaded_folder(files@) {
                Err(fault) => Err(fault),
                Ok(certs) => Ok(merged(args@, file, certs)),
            },
        },
    }
}

/// Builds the configuration from the invocation and from what was read of
/// the files that it names.
pub fn load(args: &Args, sources: &Sources) -> (r: Result<Config, ConfigError>)
    ensures
        match loaded(*args, *sources) {
            Ok(model) => r matches Ok(config) && config@ == model,
            Err(fault) => r matches Err(e) && e@ == fault,
        },
{
    let file = match load_file::<ConfigFile>(args.config.as_str(), &sources.main) {
        Ok(file) => file,
        Err(error) => {
            return Err(error);
        },
    };
    let files = match &sources.folder {
        Some(files) => files,
        None => {
            return Err(
                ConfigError { path: args.config_dir.clone(), kind: ConfigErrorKind::Unreadable },
            );
        },
    };
    let cert_files = match load_from_folder(files) {
        Ok(cert_files) => cert_files,
        Err(error) => {
            return Err(error);
        },
    };
    let ghost file_model = file@;
    let ghost models = file_models(cert_files@);
    let mut certs: Vec<CertConfig> = Vec::new();
    for cert_file in it: cert_files
        invariant
            it.seq() == cert_files@,
            certs.len() == it.index(),
            forall|j: int| 0 <= j < certs.len() ==> #[trigger] certs[j] == cert_files[j].cert,
    {
        certs.push(cert_file.cert);
    }
    let acme_email = if args.acme_email.is_some() {
        clone_optional(&args.acme_email)
    } else {
        file.acme.acme_email
    };
    let config = Config {
        certs,
        acme_email,
        acme_url: args.acme_url.clone(),
        renew_if_days_left: match file.acme.renew_if_days_left {
            Some(days) => days,
            None => DEFAULT_RENEW_IF_DAYS_LEFT,
        },
        data_dir: args.data_dir.clone(),
        chall_dir: args.chall_dir.clone(),
        group: file.system.group,
        exec_cmds: file.system.exec_cmds,
        exec_extra: file.system.exec_extra,
    };
    assert(cert_models(config.certs@) =~= certs_of(models));
    Ok(config)
}

/// Whether a certificate named `name` passes `filter`: the empty filter lets
/// every certificate pass, another one those whose name it holds.
pub open spec fn selected(filter: Set<Seq<char>>, name: Seq<char>) -> bool {
    filter.is_empty() || filter.contains(name)
}

/// The test that `filter` puts to a certificate.
pub open spec fn passes(filter: Set<Seq<char>>) -> spec_fn(CertConfig) -> bool {
    |cert: CertConfig| selected(filter, cert.name@)
}

/// The certificates that pass `filter`, in their order.
pub open spec fn filtered(certs: Seq<CertConfig>, filter: Set<Seq<char>>) -> Seq<CertConfig> {
    certs.filter(passes(filter))
}

/// What a sequence of references refers to, one for one.
pub open spec fn referents(refs: Seq<&CertConfig>) -> Seq<CertConfig> {
    Seq::new(refs.len(), |i: int| *refs[i])
}

impl Config {
    /// The certificates that pass `filter`, in the order of the
    /// configuration.
    pub fn filter_certs<'a>(&'a self, filter: &'a NameSet) -> (r: Vec<&'a CertConfig>)
        ensures
            referents(r@) == filtered(self.certs@, filter@),
    {
        let all = filter.is_empty();
        let mut out: Vec<&'a CertConfig> = Vec::new();
        let mut i: usize = 0;
        proof {
            reveal(Seq::filter);
            assert(self.certs@.take(0) =~= Seq::empty());
            assert(referents(out@) =~= Seq::empty());
        }
        while i < self.certs.len()
            invariant
                i <= self.certs.len(),
                all == filter@.is_empty(),
                referents(out@) == filtered(self.certs@.take(i as int), filter@),
            decreases self.certs.len() - i,
        {
            let cert = &self.certs[i];
            let keep = all || filter.contains(cert.name.as_str());
            proof {
                let before = self.certs@.take(i as int);
                assert(self.certs@.take(i + 1) =~= before.push(*cert));
                before.lemma_filter_push(*cert, passes(filter@));
            }
            if keep {
                let ghost kept = referents(out@);
                out.push(cert);
                assert(referents(out@) =~= kept.push(*cert));
            }
            i += 1;
        }
        assert(self.certs@.take(i as int) =~= self.certs@);
        out
    }
}

/// A test that every item passes keeps the sequence as it is.
proof fn lemma_filter_all<A>(s: Seq<A>, pred: spec_fn(A) -> bool)
    requires
        forall|i: int| 0 <= i < s.len() ==> pred(#[trigger] s[i]),
    ensures
        s.filter(pred) == s,
    decreases s.len(),
{
    reveal(Seq::filter);
    if s.len() > 0 {
        lemma_filter_all(s.drop_last(), pred);
        assert(s.drop_last().push(s.last()) =~= s);
    }
}

/// Two tests that agree on every item keep the same items.
proof fn lemma_filter_agree<A>(s: Seq<A>, p: spec_fn(A) -> bool, q: spec_fn(A) -> bool)
    requires
        forall|i: int| 0 <= i < s.len() ==> p(#[trigger] s[i]) == q(s[i]),
    ensures
        s.filter(p) == s.filter(q),
    decreases s.len(),
{
    reveal(Seq::filter);
    if s.len() > 0 {
        lemma_filter_agree(s.drop_last(), p, q);
    }
}

/// The empty filter yields every certificate, in the order of the
/// configuration.
pub proof fn law_empty_filter_keeps_all(certs: Seq<CertConfig>)
    ensures
        filtered(certs, Set::empty()) == certs,
{
    lemma_filter_all(certs, passes(Set::empty()));
}

/// A filter of one name yields exactly the certificates of that name, as
/// many as there are, in the order of the configuration.
pub proof fn law_filter_by_name(certs: Seq<CertConfig>, name: Seq<char>)
    ensures
        filtered(certs, set![name]) == certs.filter(|cert: CertConfig| cert.name@ == name),
{
    assert(set![name].contains(name));
    lemma_filter_agree(certs, passes(set![name]), |cert: CertConfig| cert.name@ == name);
}

/// A name of the filter that no certificate bears adds nothing to what is
/// yielded.
pub proof fn law_unknown_name_is_ignored(certs: Seq<CertConfig>, filter: Set<Seq<char>>, name: Seq<char>)
    requires
        !filter.is_empty(),
        forall|i: int| 0 <= i < certs.len() ==> (#[trigger] certs[i]).name@ != name,
    ensures
        filtered(certs, filter.insert(name)) == filtered(certs, filter),
{
    let witness = choose|n: Seq<char>| filter.contains(n);
    assert(filter.insert(name).contains(witness));
    lemma_filter_agree(certs, passes(filter.insert(name)), passes(filter));
}

/// An address that the invocation supplies is the address of the
/// configuration, whatever the main file says.
pub proof fn law_email_override_wins(args: Args, sources: Sources)
    requires
        args.acme_email is Some,
    ensures
        loaded(args, sources) matches Ok(config) ==> config.acme_email == Some(
            args.acme_email->Some_0@,
        ),
{
}

/// Whether the main file says nothing of the renewal threshold.
pub open spec fn omits_renewal(main: Node) -> bool {
    main.entry("acme"@) matches Some(section) ==> section.entry("renew_if_days_left"@) is None
}

/// Where the main file omits the renewal threshold, the configuration has
/// the default.
pub proof fn law_default_renewal(args: Args, sources: Sources)
    requires
        sources.main matches Some(text) && parsed(text@) matches Ok(main) && omits_renewal(
            main,
        ),
    ensures
        loaded(args, sources) matches Ok(config) ==> config.renew_if_days_left
            == DEFAULT_RENEW_IF_DAYS_LEFT,
{
}

/// The URL and the two directories of the configuration are those of the
/// invocation, whatever the main file says.
pub proof fn law_invocation_layer(args: Args, sources: Sources)
    ensures
        loaded(args, sources) matches Ok(config) ==> config.acme_url == args.acme_url@
            && config.data_dir == args.data_dir@ && config.chall_dir == args.chall_dir@,
{
}

} // verus!
