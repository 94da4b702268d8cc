use vstd::prelude::*;

verus! {

/// The directory, under the user's home, that holds the tool's data by default.
pub const APP_DIR_NAME: &'static str = ".pair_commit_tool";

/// The name of the file, in the tool's directory, that holds the authors.
pub const SAVE_FILE_NAME: &'static str = "data.yml";

/// The path `part` below the directory `base`: the two joined by one `/`.
pub open spec fn joined_path(base: Seq<char>, part: Seq<char>) -> Seq<char> {
    if base.len() == 0 {
        part
    } else if base.last() == '/' {
        base + part
    } else {
        base + "/"@ + part
    }
}

/// A failure to work out where the tool keeps its data.
#[derive(Debug)]
pub struct Error {
    message: String,
}

impl View for Error {
    type V = Seq<char>;

    closed spec fn view(&self) -> Seq<char> {
        self.message@
    }
}

impl Error {
    /// An error that says `message`.
    pub fn new(message: String) -> (r: Error)
        ensures
            r@ == message@,
    {
        Error { message }
    }

    /// What went wrong, for a person to read.
    pub fn message(&self) -> (r: &String)
        ensures
            r@ == self@,
    {
        &self.message
    }
}

impl Default for Error {
    fn default() -> (r: Error)
        ensures
            r@ == "A config error occurred"@,
    {
        Error { message: String::from_str("A config error occurred") }
    }
}

/// What the tool's directory is, as mathematical values.
pub ghost struct ConfigView {
    pub app_home: Option<Seq<char>>,
    pub save_file_name: Seq<char>,
}

/// Where the tool keeps its data.
#[derive(Debug)]
pub struct Config {
    app_home: Option<String>,
    save_file_name: &'static str,
}

impl View for Config {
    type V = ConfigView;

    closed spec fn view(&self) -> ConfigView {
        ConfigView {
            app_home: match self.app_home {
                Some(h) => Some(h@),
                None => None,
            },
            save_file_name: self.save_file_name@,
        }
    }
}

/// The tool's directory: the one named by the environment where it names one, else
/// the default one under the user's home directory.
pub open spec fn app_home_for(env_home: Option<Seq<char>>, home_dir: Option<Seq<char>>) -> Option<
    Seq<char>,
> {
    match env_home {
        Some(h) => Some(h),
        None => match home_dir {
            Some(d) => Some(joined_path(d, APP_DIR_NAME@)),
            None => None,
        },
    }
}

/// The text of the error given when no home directory is known.
pub open spec fn no_home_message() -> Seq<char> {
    "Failed to get default home directory"@
}

/// Joins `part` below the directory `base`.
fn join_path(base: &str, part: &str) -> (r: String)
    ensures
        r@ == joined_path(base@, part@),
{
    let n = base.unicode_len();
    if n == 0 {
        String::from_str(part)
    } else if base.get_char(n - 1) == '/' {
        String::from_str(base).concat(part)
    } else {
        String::from_str(base).concat("/").concat(part)
    }
}

/// The default directory of the tool under the user's home directory.
fn get_default_app_home(home_dir: Option<String>) -> (r: Result<String, Error>)
    ensures
        home_dir matches Some(d) ==> (r matches Ok(p) && p@ == joined_path(d@, APP_DIR_NAME@)),
        home_dir is None ==> (r matches Err(e) && e@ == no_home_message()),
{
    match home_dir {
        Some(d) => Ok(join_path(d.as_str(), APP_DIR_NAME)),
        None => Err(Error::new(String::from_str("Failed to get default home directory"))),
    }
}

impl Config {
    /// The tool's directory, from the environment or else from the home directory.
    fn get_new_app_home(env_home: Option<String>, home_dir: Option<String>) -> (r: Result<
        String,
        Error,
    >)
        ensures
            r is Ok <==> app_home_for(opt_view(env_home), opt_view(home_dir)) is Some,
            r matches Ok(p) ==> Some(p@) == app_home_for(opt_view(env_home), opt_view(home_dir)),
            r matches Err(e) ==> e@ == no_home_message(),
    {
        match env_home {
            Some(h) => Ok(h),
            None => get_default_app_home(home_dir),
        }
    }

    /// The configuration for the directory named by `env_home` where that is given,
    /// else for the default directory under `home_dir`; an error where neither is
    /// known.
    pub fn new(env_home: Option<String>, home_dir: Option<String>) -> (r: Result<Config, Error>)
        ensures
            r is Ok <==> app_home_for(opt_view(env_home), opt_view(home_dir)) is Some,
            r matches Ok(c) ==> c@ == (ConfigView {
                app_home: app_home_for(opt_view(env_home), opt_view(home_dir)),
                save_file_name: SAVE_FILE_NAME@,
            }),
            r matches Err(e) ==> e@ == no_home_message(),
    {
        match Config::get_new_app_home(env_home, home_dir) {
            Ok(home) => Ok(Config { app_home: Some(home), save_file_name: SAVE_FILE_NAME }),
            Err(e) => Err(e),
        }
    }

    /// The path of the file that holds the authors, where the directory is known.
    pub fn save_file_path(&self) -> (r: Option<String>)
        ensures
            self@.app_home is None ==> r is None,
            self@.app_home matches Some(h) ==> (r matches Some(p) && p@ == joined_path(
                h,
                self@.save_file_name,
            )),
    {
        match &self.app_home {
            Some(h) => Some(join_path(h.as_str(), self.save_file_name)),
            None => None,
        }
    }
}

impl Default for Config {
    fn default() -> (r: Config)
        ensures
            r@ == (ConfigView { app_home: None, save_file_name: SAVE_FILE_NAME@ }),
    {
        Config { app_home: None, save_file_name: SAVE_FILE_NAME }
    }
}

/// The text an optional string holds, if any.
pub open spec fn opt_view(s: Option<String>) -> Option<Seq<char>> {
    match s {
        Some(t) => Some(t@),
        None => None,
    }
}

} // verus!
