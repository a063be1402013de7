//! How the run identifies itself to the accounting engine, and which company
//! file it asks for.

use vstd::prelude::*;

verus! {

/// The view of an optional string.
pub open spec fn text_of(s: Option<String>) -> Option<Seq<char>> {
    match s {
        Some(s) => Some(s@),
        None => None,
    }
}

/// The view of an optional string slice.
pub open spec fn slice_text_of(s: Option<&str>) -> Option<Seq<char>> {
    match s {
        Some(s) => Some(s@),
        None => None,
    }
}

/// How files are opened when a session begins. The orchestrator always asks
/// for `DoNotCare`.
#[derive(Clone, Copy, Debug, PartialEq, Eq, Structural)]
pub enum FileMode {
    SingleUser,
    MultiUser,
    DoNotCare,
}

/// The accounting engine's part of the run configuration.
#[derive(Clone, Debug, PartialEq, Eq)]
pub struct EngineSettings {
    pub application_id: Option<String>,
    pub application_name: Option<String>,
    pub company_file: String,
}

/// The mathematical content of [`EngineSettings`].
pub struct EngineSettingsView {
    pub application_id: Option<Seq<char>>,
    pub application_name: Option<Seq<char>>,
    pub company_file: Seq<char>,
}

impl EngineSettingsView {
    /// The display name used when none is configured.
    pub open spec fn fallback_name() -> Seq<char> {
        "QuickBooks Sync Service"@
    }

    /// The company file value that stands for "whatever file the engine has
    /// open".
    pub open spec fn auto_sentinel() -> Seq<char> {
        "AUTO"@
    }

    /// The application identifier handed to the engine: the configured one,
    /// or the empty string.
    pub open spec fn connection_id(self) -> Seq<char> {
        match self.application_id {
            Some(id) => id,
            None => Seq::empty(),
        }
    }

    /// The display name handed to the engine: the configured one, or the
    /// fixed fallback.
    pub open spec fn display_name(self) -> Seq<char> {
        match self.application_name {
            Some(name) => name,
            None => Self::fallback_name(),
        }
    }

    /// The company file handed to the engine: empty for the engine-selected
    /// default, which the configuration spells `AUTO`, else the configured
    /// path.
    pub open spec fn session_file(self) -> Seq<char> {
        if self.company_file == Self::auto_sentinel() {
            Seq::empty()
        } else {
            self.company_file
        }
    }
}

impl View for EngineSettings {
    type V = EngineSettingsView;

    open spec fn view(&self) -> EngineSettingsView {
        EngineSettingsView {
            application_id: text_of(self.application_id),
            application_name: text_of(self.application_name),
            company_file: self.company_file@,
        }
    }
}

impl EngineSettings {
    /// Settings with the given identity and company file.
    pub fn new(
        application_id: Option<String>,
        application_name: Option<String>,
        company_file: String,
    ) -> (settings: EngineSettings)
        ensures
            settings.application_id == application_id,
            settings.application_name == application_name,
            settings.company_file == company_file,
            settings@ == (EngineSettingsView {
                application_id: text_of(application_id),
                application_name: text_of(application_name),
                company_file: company_file@,
            }),
    {
        EngineSettings { application_id, application_name, company_file }
    }

    /// The application identifier to open the connection with.
    pub fn connection_id(&self) -> (id: String)
        ensures
            id@ == self@.connection_id(),
    {
        match &self.application_id {
            Some(id) => id.clone(),
            None => String::new(),
        }
    }

    /// The display name to open the connection with.
    pub fn display_name(&self) -> (name: String)
        ensures
            name@ == self@.display_name(),
    {
        match &self.application_name {
            Some(name) => name.clone(),
            None => "QuickBooks Sync Service".to_owned(),
        }
    }

    /// The company file to begin the session against; empty asks the engine
    /// for its default.
    pub fn session_file(&self) -> (file: String)
        ensures
            file@ == self@.session_file(),
    {
        let sentinel = "AUTO".to_owned();
        if self.company_file == sentinel {
            String::new()
        } else {
            self.company_file.clone()
        }
    }

    /// The file mode to begin the session with.
    pub fn file_mode(&self) -> (mode: FileMode)
        ensures
            mode == FileMode::DoNotCare,
    {
        FileMode::DoNotCare
    }
}

} // verus!
