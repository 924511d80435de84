//! The compiler's configuration: where it reads and writes, and the options
//! that tell it how strict to be and how to name the files it imports.

use std::path::PathBuf;
use vstd::hash_map::StringHashMap;
use vstd::prelude::*;
use vstd::string::StringExecFns;

verus! {

/// The name of the directory, under the artifact directory, that holds what
/// the compiler generates.
pub const ISOGRAPH_FOLDER: &'static str = "__isograph";

/// A path of the file system, as `std::path::PathBuf` holds it. Nothing is
/// known of what a path holds; a path is only carried along.
#[verifier::external_type_specification]
#[verifier::external_body]
pub struct ExPathBuf(PathBuf);

/// The configuration with which the compiler runs. Every path is absolute.
pub struct CompilerConfig {
    /// The folder where the compiler should look for literals
    pub project_root: PathBuf,
    /// The folder where the compiler should create artifacts
    pub artifact_directory: PathBuf,
    /// The absolute path to the schema
    pub schema: PathBuf,
    /// The absolute paths to the schema extensions
    pub schema_extensions: Vec<PathBuf>,
    /// Various options that are of lesser importance
    pub options: ConfigOptions,
}

/// Options of lesser importance.
pub struct ConfigOptions {
    pub on_invalid_id_type: OptionalValidationLevel,
    pub generate_file_extensions: OptionalGenerateFileExtensions,
}

/// The suffix to write after an import of a file of each kind, by the file's
/// extension.
pub struct OptionalGenerateFileExtensions {
    extensions: StringHashMap<String>,
}

/// What to do when a validation fails that the user may choose to live with.
#[derive(Debug, Clone, Copy, PartialEq, Eq, Structural)]
pub enum OptionalValidationLevel {
    /// If this validation error is encountered, it will be ignored
    Ignore,
    /// If this validation error is encountered, a warning will be issued
    Warn,
    /// If this validation error is encountered, the compilation will fail
    Error,
}

/// The configuration as its file states it. Every path is relative to the
/// directory of the file.
#[derive(Debug)]
pub struct ConfigFile {
    /// The relative path to the folder where the compiler should look for
    /// literals
    pub project_root: PathBuf,
    /// The relative path to the folder where the compiler should create
    /// artifacts. Defaults to the project_root directory.
    pub artifact_directory: Option<PathBuf>,
    /// The relative path to the schema
    pub schema: PathBuf,
    /// The relative paths to the schema extensions
    pub schema_extensions: Vec<PathBuf>,
    /// Options that are of lesser importance
    pub options: ConfigFileOptions,
}

/// The options as the configuration file states them.
#[derive(Debug)]
pub struct ConfigFileOptions {
    pub on_invalid_id_type: ConfigFileOptionalValidationLevel,
    pub generate_file_extensions: ConfigFileOptionalGenerateFileExtensions,
}

/// A validation level as the configuration file states it.
#[derive(Debug, Clone, Copy, PartialEq, Eq, Structural)]
pub enum ConfigFileOptionalValidationLevel {
    /// If this validation error is encountered, it will be ignored
    Ignore,
    /// If this validation error is encountered, a warning will be issued
    Warn,
    /// If this validation error is encountered, the compilation will fail
    Error,
}

/// The suffixes of imports as the configuration file states them: a suffix
/// for each extension, or nothing at all.
#[derive(Debug)]
pub enum ConfigFileOptionalGenerateFileExtensions {
    /// Pairs of an extension and its suffix, as a mapping lists them: see
    /// `is_well_formed`. Should two pairs have one extension, the later one
    /// counts.
    Yes(Vec<(String, String)>),
    No,
}

/// Whether the extension is one that has the empty suffix by default.
pub open spec fn is_known_extension(extension: Seq<char>) -> bool {
    ||| extension == "js"@
    ||| extension == "jsx"@
    ||| extension == "cjs"@
    ||| extension == "cjsx"@
    ||| extension == "mjs"@
    ||| extension == "mjsx"@
    ||| extension == "ts"@
    ||| extension == "tsx"@
    ||| extension == "cts"@
    ||| extension == "ctsx"@
    ||| extension == "mts"@
    ||| extension == "mtsx"@
}

/// The suffixes when none are configured: the empty suffix for every known
/// extension.
pub open spec fn default_extensions() -> Map<Seq<char>, Seq<char>> {
    Map::new(
        |extension: Seq<char>| is_known_extension(extension),
        |extension: Seq<char>| Seq::<char>::empty(),
    )
}

/// Whether no two pairs of the list have the same extension. A list that
/// was made of a mapping is such a list.
pub open spec fn names_each_extension_once(pairs: Seq<(String, String)>) -> bool {
    forall|i: int, j: int|
        0 <= i < j < pairs.len() ==> (#[trigger] pairs[i]).0@ != (#[trigger] pairs[j]).0@
}

/// The suffixes that a list of pairs states: each pair in turn gives its
/// extension its suffix.
pub open spec fn extensions_of_pairs(pairs: Seq<(String, String)>) -> Map<Seq<char>, Seq<char>>
    decreases pairs.len(),
{
    if pairs.len() == 0 {
        Map::empty()
    } else {
        extensions_of_pairs(pairs.drop_last()).insert(pairs.last().0@, pairs.last().1@)
    }
}

impl View for OptionalGenerateFileExtensions {
    type V = Map<Seq<char>, Seq<char>>;

    /// The suffix of each extension that has one.
    closed spec fn view(&self) -> Map<Seq<char>, Seq<char>> {
        Map::new(
            |extension: Seq<char>| self.extensions@.contains_key(extension),
            |extension: Seq<char>| self.extensions@[extension]@,
        )
    }
}

impl OptionalGenerateFileExtensions {
    /// The suffixes that a list of pairs states.
    pub fn from_pairs(pairs: Vec<(String, String)>) -> (extensions: Self)
        ensures
            extensions@ == extensions_of_pairs(pairs@),
    {
        let mut extensions: StringHashMap<String> = StringHashMap::new();
        let mut i: usize = 0;
        let ghost mut suffixes: Map<Seq<char>, Seq<char>> = Map::empty();
        while i < pairs.len()
            invariant
                i <= pairs@.len(),
                suffixes == extensions_of_pairs(pairs@.take(i as int)),
                suffixes == Map::new(
                    |extension: Seq<char>| extensions@.contains_key(extension),
                    |extension: Seq<char>| extensions@[extension]@,
                ),
            decreases pairs@.len() - i,
        {
            let extension = pairs[i].0.clone();
            let suffix = pairs[i].1.clone();
            proof {
                assert(pairs@.take(i + 1).drop_last() == pairs@.take(i as int));
                suffixes = suffixes.insert(extension@, suffix@);
            }
            extensions.insert(extension, suffix);
            i += 1;
        }
        assert(pairs@.take(i as int) == pairs@);
        OptionalGenerateFileExtensions { extensions }
    }

    /// The suffix configured for the extension, if there is one.
    pub fn get(&self, extension: &str) -> (mapped_extension: Option<&String>)
        ensures
            match mapped_extension {
                Some(suffix) => self@.contains_key(extension@) && suffix@ == self@[extension@],
                None => !self@.contains_key(extension@),
            },
    {
        self.extensions.get(extension)
    }

    /// The warning to give when no suffix is configured for an extension.
    pub fn missing_extension_warning(extension: &str) -> (warning: String)
        ensures
            warning@ == "missing ."@ + extension@
                + " file extension in options.generate_file_extensions"@,
    {
        let mut warning = String::from_str("missing .");
        warning.append(extension);
        warning.append(" file extension in options.generate_file_extensions");
        warning
    }

    /// The suffix for imports of `ts` files; empty if none is configured.
    pub fn ts(&self) -> (suffix: &str)
        ensures
            suffix@ == if self@.contains_key("ts"@) {
                self@["ts"@]
            } else {
                Seq::<char>::empty()
            },
    {
        match self.get("ts") {
            None => {
                proof {
                    reveal_strlit("");
                }
                ""
            },
            Some(v) => v.as_str(),
        }
    }

    /// The suffix for imports of `tsx` files; empty if none is configured.
    pub fn tsx(&self) -> (suffix: &str)
        ensures
            suffix@ == if self@.contains_key("tsx"@) {
                self@["tsx"@]
            } else {
                Seq::<char>::empty()
            },
    {
        match self.get("tsx") {
            None => {
                proof {
                    reveal_strlit("");
                }
                ""
            },
            Some(v) => v.as_str(),
        }
    }
}

impl Default for OptionalGenerateFileExtensions {
    /// The empty suffix for every known extension.
    fn default() -> (extensions: Self)
        ensures
            extensions@ == default_extensions(),
    {
        let mut map: StringHashMap<String> = StringHashMap::new();
        map.insert(String::from_str("js"), String::new());
        map.insert(String::from_str("jsx"), String::new());
        map.insert(String::from_str("cjs"), String::new());
        map.insert(String::from_str("cjsx"), String::new());
        map.insert(String::from_str("mjs"), String::new());
        map.insert(String::from_str("mjsx"), String::new());
        map.insert(String::from_str("ts"), String::new());
        map.insert(String::from_str("tsx"), String::new());
        map.insert(String::from_str("cts"), String::new());
        map.insert(String::from_str("ctsx"), String::new());
        map.insert(String::from_str("mts"), String::new());
        map.insert(String::from_str("mtsx"), String::new());
        let extensions = OptionalGenerateFileExtensions { extensions: map };
        extensions
    }
}

impl OptionalValidationLevel {
    /// Decides what a failed validation comes to. At `Ignore` it comes to
    /// nothing and `on_error` is not called. At `Warn` the validation passes
    /// and what `on_error` makes is handed back for the caller to issue as a
    /// warning. At `Error` what `on_error` makes is the error.
    pub fn on_failure<E>(self, on_error: impl FnOnce() -> E) -> (result: Result<Option<E>, E>)
        requires
            on_error.requires(()),
        ensures
            match self {
                OptionalValidationLevel::Ignore => result == Ok::<Option<E>, E>(None),
                OptionalValidationLevel::Warn => result matches Ok(Some(warning))
                    && on_error.ensures((), warning),
                OptionalValidationLevel::Error => result matches Err(error) && on_error.ensures(
                    (),
                    error,
                ),
            },
    {
        match self {
            OptionalValidationLevel::Ignore => Ok(None),
            OptionalValidationLevel::Warn => {
                let warning = on_error();
                Ok(Some(warning))
            },
            OptionalValidationLevel::Error => Err(on_error()),
        }
    }
}

impl Default for OptionalValidationLevel {
    /// A failed validation is an error unless the configuration says
    /// otherwise.
    fn default() -> (level: Self)
        ensures
            level == OptionalValidationLevel::Error,
    {
        Self::Error
    }
}

impl Default for ConfigOptions {
    fn default() -> (options: Self)
        ensures
            options.on_invalid_id_type == OptionalValidationLevel::Error,
            options.generate_file_extensions@ == default_extensions(),
    {
        ConfigOptions {
            on_invalid_id_type: OptionalValidationLevel::default(),
            generate_file_extensions: OptionalGenerateFileExtensions::default(),
        }
    }
}

impl Default for ConfigFileOptionalValidationLevel {
    fn default() -> (level: Self)
        ensures
            level == ConfigFileOptionalValidationLevel::Error,
    {
        Self::Error
    }
}

impl Default for ConfigFileOptionalGenerateFileExtensions {
    fn default() -> (extensions: Self)
        ensures
            extensions is No,
    {
        Self::No
    }
}

impl Default for ConfigFileOptions {
    fn default() -> (options: Self)
        ensures
            options.on_invalid_id_type == ConfigFileOptionalValidationLevel::Error,
            options.generate_file_extensions is No,
    {
        ConfigFileOptions {
            on_invalid_id_type: ConfigFileOptionalValidationLevel::default(),
            generate_file_extensions: ConfigFileOptionalGenerateFileExtensions::default(),
        }
    }
}

impl ConfigFile {
    /// The directory under which the artifacts go, relative to the directory
    /// of the configuration file: the artifact directory if the file states
    /// one, and else the project root.
    pub fn artifact_directory_or_project_root(&self) -> (directory: &PathBuf)
        ensures
            *directory == match self.artifact_directory {
                Some(artifact_directory) => artifact_directory,
                None => self.project_root,
            },
    {
        match &self.artifact_directory {
            Some(artifact_directory) => artifact_directory,
            None => &self.project_root,
        }
    }
}

impl ConfigFileOptionalGenerateFileExtensions {
    /// Whether the suffixes are a mapping: no extension is given two
    /// suffixes.
    pub open spec fn is_well_formed(&self) -> bool {
        match *self {
            ConfigFileOptionalGenerateFileExtensions::Yes(pairs) => names_each_extension_once(
                pairs@,
            ),
            ConfigFileOptionalGenerateFileExtensions::No => true,
        }
    }
}

/// The suffixes of a list in which no extension occurs twice are the pairs of
/// the list, whatever their order: an extension has a suffix exactly if a
/// pair names it, and then the suffix of that pair.
pub proof fn lemma_pairs_of_a_mapping_are_its_suffixes(pairs: Seq<(String, String)>)
    requires
        names_each_extension_once(pairs),
    ensures
        forall|extension: Seq<char>|
            extensions_of_pairs(pairs).contains_key(extension) <==> exists|i: int|
                0 <= i < pairs.len() && (#[trigger] pairs[i]).0@ == extension,
        forall|i: int|
            0 <= i < pairs.len() ==> extensions_of_pairs(pairs)[(#[trigger] pairs[i]).0@]
                == pairs[i].1@,
    decreases pairs.len(),
{
    if pairs.len() > 0 {
        let rest = pairs.drop_last();
        let last = pairs.last();
        assert forall|i: int, j: int| 0 <= i < j < rest.len() implies (#[trigger] rest[i]).0@ != (
        #[trigger] rest[j]).0@ by {
            assert(rest[i] == pairs[i] && rest[j] == pairs[j]);
        }
        lemma_pairs_of_a_mapping_are_its_suffixes(rest);
        assert forall|extension: Seq<char>|
            extensions_of_pairs(pairs).contains_key(extension) <==> exists|i: int|
                0 <= i < pairs.len() && (#[trigger] pairs[i]).0@ == extension by {
            if extensions_of_pairs(pairs).contains_key(extension) {
                if extension == last.0@ {
                    assert(pairs[pairs.len() - 1].0@ == extension);
                } else {
                    assert(extensions_of_pairs(rest).contains_key(extension));
                    let i = choose|i: int|
                        0 <= i < rest.len() && (#[trigger] rest[i]).0@ == extension;
                    assert(rest[i] == pairs[i]);
                }
            }
            if exists|i: int| 0 <= i < pairs.len() && (#[trigger] pairs[i]).0@ == extension {
                let i = choose|i: int|
                    0 <= i < pairs.len() && (#[trigger] pairs[i]).0@ == extension;
                if i < rest.len() {
                    assert(rest[i] == pairs[i]);
                    assert(extensions_of_pairs(rest).contains_key(extension));
                }
            }
        }
        assert forall|i: int| 0 <= i < pairs.len() implies extensions_of_pairs(pairs)[(
        #[trigger] pairs[i]).0@] == pairs[i].1@ by {
            if i < rest.len() {
                assert(rest[i] == pairs[i]);
                assert(pairs[i].0@ != pairs[pairs.len() - 1].0@);
            }
        }
    }
}

/// The validation level that the options of a configuration file come to.
pub open spec fn validation_level_of(
    level: ConfigFileOptionalValidationLevel,
) -> OptionalValidationLevel {
    match level {
        ConfigFileOptionalValidationLevel::Ignore => OptionalValidationLevel::Ignore,
        ConfigFileOptionalValidationLevel::Warn => OptionalValidationLevel::Warn,
        ConfigFileOptionalValidationLevel::Error => OptionalValidationLevel::Error,
    }
}

/// The suffixes that the options of a configuration file come to: those it
/// states, and the default ones where it states none.
pub open spec fn generate_file_extensions_of(
    extensions: ConfigFileOptionalGenerateFileExtensions,
) -> Map<Seq<char>, Seq<char>> {
    match extensions {
        ConfigFileOptionalGenerateFileExtensions::Yes(pairs) => extensions_of_pairs(pairs@),
        ConfigFileOptionalGenerateFileExtensions::No => default_extensions(),
    }
}

/// The options that the options of a configuration file come to.
pub fn create_options(options: ConfigFileOptions) -> (created: ConfigOptions)
    ensures
        created.on_invalid_id_type == validation_level_of(options.on_invalid_id_type),
        created.generate_file_extensions@ == generate_file_extensions_of(
            options.generate_file_extensions,
        ),
{
    ConfigOptions {
        on_invalid_id_type: create_optional_validation_level(options.on_invalid_id_type),
        generate_file_extensions: create_generate_file_extensions(options.generate_file_extensions),
    }
}

/// The validation level that a level of a configuration file comes to.
pub fn create_optional_validation_level(
    optional_validation_level: ConfigFileOptionalValidationLevel,
) -> (level: OptionalValidationLevel)
    ensures
        level == validation_level_of(optional_validation_level),
{
    match optional_validation_level {
        ConfigFileOptionalValidationLevel::Ignore => OptionalValidationLevel::Ignore,
        ConfigFileOptionalValidationLevel::Warn => OptionalValidationLevel::Warn,
        ConfigFileOptionalValidationLevel::Error => OptionalValidationLevel::Error,
    }
}

/// The suffixes that the suffixes of a configuration file come to.
pub fn create_generate_file_extensions(
    optional_generate_file_extensions: ConfigFileOptionalGenerateFileExtensions,
) -> (extensions: OptionalGenerateFileExtensions)
    ensures
        extensions@ == generate_file_extensions_of(optional_generate_file_extensions),
{
    match optional_generate_file_extensions {
        ConfigFileOptionalGenerateFileExtensions::Yes(extensions) => {
            OptionalGenerateFileExtensions::from_pairs(extensions)
        },
        ConfigFileOptionalGenerateFileExtensions::No => OptionalGenerateFileExtensions::default(),
    }
}

} // verus!
