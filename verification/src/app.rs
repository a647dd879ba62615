use std::collections::HashMap;
use vstd::prelude::*;
use vstd::string::*;

use crate::error::Error;

verus! {

/// Whether a lookup of an app may create it.
#[derive(Debug, Clone, Copy, PartialEq, Eq, Structural)]
pub enum ObjectCreationType {
    /// Only look the app up.
    Unspecified,
    /// Create the app where it is missing.
    CreateIfMissing,
}

/// The state an app is published in.
#[derive(Debug, Clone, Copy, PartialEq, Eq, Structural)]
pub enum AppState {
    Deployed,
}

/// Looks up a deployed app by its name.
pub struct AppGetByDeploymentNameRequest {
    pub name: String,
    pub environment_name: String,
}

/// Looks up a running app by its name, creating it where asked to.
pub struct AppGetOrCreateRequest {
    pub app_name: String,
    pub environment_name: String,
    pub object_creation_type: ObjectCreationType,
}

/// Publishes an app with its functions and classes.
pub struct AppPublishRequest {
    pub app_id: String,
    pub name: String,
    pub tags: HashMap<String, String>,
    pub deployment_tag: String,
    pub app_state: AppState,
    pub function_ids: HashMap<String, String>,
    pub class_ids: HashMap<String, String>,
    pub definition_ids: HashMap<String, String>,
    pub rollback_version: i32,
    pub client_version: String,
}

/// Replaces the tags of a deployed app.
pub struct AppSetTagsRequest {
    pub app_id: String,
    pub tags: HashMap<String, String>,
}

/// Asks for the tags of a deployed app.
pub struct AppGetTagsRequest {
    pub app_id: String,
}

/// An app: a group of functions and classes deployed together, with its
/// id once the service has given it one, its name, and its tags.
#[derive(Clone)]
pub struct App {
    app_id: Option<String>,
    name: Option<String>,
    tags: HashMap<String, String>,
}

pub struct AppView {
    pub app_id: Option<Seq<char>>,
    pub name: Option<Seq<char>>,
    pub tags: Map<String, String>,
}

impl View for App {
    type V = AppView;

    closed spec fn view(&self) -> AppView {
        AppView {
            app_id: match self.app_id {
                Some(t) => Some(t@),
                None => None,
            },
            name: match self.name {
                Some(t) => Some(t@),
                None => None,
            },
            tags: self.tags@,
        }
    }
}

/// The text of the error for an app that neither lookup found.
pub open spec fn app_missing_text(name: Seq<char>) -> Seq<char> {
    "App '"@ + name + "' not found"@
}

/// The text of the error for an app that could be neither found nor created.
pub open spec fn app_not_created_text(name: Seq<char>) -> Seq<char> {
    "Failed to create or get app '"@ + name + "'"@
}

/// The text of the error for a deployment of an app without a name.
pub open spec fn nameless_deploy_text() -> Seq<char> {
    "App name is required for deployment"@
}

/// The text of the error for setting the tags of an app not yet deployed.
pub open spec fn undeployed_update_tags_text() -> Seq<char> {
    "App must be deployed before updating tags"@
}

/// The text of the error for reading the tags of an app not yet deployed.
pub open spec fn undeployed_get_tags_text() -> Seq<char> {
    "App must be deployed before getting tags"@
}

/// The state of an app that the service knows by this id.
pub open spec fn found_app(name: Seq<char>, app_id: Seq<char>) -> AppView {
    AppView { app_id: Some(app_id), name: Some(name), tags: Map::empty() }
}

pub open spec fn opt_map_view(m: Option<HashMap<String, String>>) -> Map<String, String> {
    match m {
        Some(m) => m@,
        None => Map::empty(),
    }
}

fn found(name: &str, app_id: String) -> (r: App)
    ensures
        r@ == found_app(name@, app_id@),
{
    App { app_id: Some(app_id), name: Some(String::from_str(name)), tags: HashMap::new() }
}

fn get_or_create_request(name: &str, object_creation_type: ObjectCreationType) -> (r: AppGetOrCreateRequest)
    ensures
        r.app_name@ == name@,
        r.environment_name@.len() == 0,
        r.object_creation_type == object_creation_type,
{
    AppGetOrCreateRequest {
        app_name: String::from_str(name),
        environment_name: String::new(),
        object_creation_type,
    }
}

fn other_error(text: String) -> (r: Error)
    ensures
        r matches Error::Other(m) && m@ == text@,
{
    Error::Other(text)
}

impl App {
    /// A new app with a name, not yet known to the service, without tags.
    pub fn with_name(name: &str) -> (r: App)
        ensures
            r@ == (AppView { app_id: None, name: Some(name@), tags: Map::empty() }),
    {
        App { app_id: None, name: Some(String::from_str(name)), tags: HashMap::new() }
    }

    /// The first lookup of an app: among the deployed apps, by name, in the
    /// default environment.
    pub fn deployment_lookup_request(name: &str) -> (r: AppGetByDeploymentNameRequest)
        ensures
            r.name@ == name@,
            r.environment_name@.len() == 0,
    {
        AppGetByDeploymentNameRequest { name: String::from_str(name), environment_name: String::new() }
    }

    /// The app that the first lookup found; `None` where the service sent back
    /// an empty id, and the lookup goes on among the running apps.
    pub fn from_deployment_lookup(name: &str, app_id: String) -> (r: Option<App>)
        ensures
            app_id@.len() == 0 ==> r is None,
            app_id@.len() != 0 ==> (r matches Some(a) && a@ == found_app(name@, app_id@)),
            r matches Some(a) ==> a@.name == Some(name@) && a@.app_id == Some(app_id@) && a@.tags
                == Map::<String, String>::empty(),
    {
        if app_id.as_str().is_empty() {
            None
        } else {
            Some(found(name, app_id))
        }
    }

    /// The second lookup of an app: among the running apps, without creating it.
    pub fn fallback_lookup_request(name: &str) -> (r: AppGetOrCreateRequest)
        ensures
            r.app_name@ == name@,
            r.environment_name@.len() == 0,
            r.object_creation_type == ObjectCreationType::Unspecified,
    {
        get_or_create_request(name, ObjectCreationType::Unspecified)
    }

    /// The app that the second lookup found; an empty id means that there is
    /// no such app.
    pub fn from_fallback_lookup(name: &str, app_id: String) -> (r: Result<App, Error>)
        ensures
            app_id@.len() == 0 ==> (r matches Err(Error::Other(m)) && m@ == app_missing_text(name@)),
            app_id@.len() != 0 ==> (r matches Ok(a) && a@ == found_app(name@, app_id@)),
            r matches Ok(a) ==> a@.name == Some(name@) && a@.app_id == Some(app_id@) && a@.tags
                == Map::<String, String>::empty(),
    {
        if app_id.as_str().is_empty() {
            Err(other_error(String::from_str("App '").concat(name).concat("' not found")))
        } else {
            Ok(found(name, app_id))
        }
    }

    /// The lookup of an app that creates it where it is missing.
    pub fn get_or_create_request(name: &str) -> (r: AppGetOrCreateRequest)
        ensures
            r.app_name@ == name@,
            r.environment_name@.len() == 0,
            r.object_creation_type == ObjectCreationType::CreateIfMissing,
    {
        get_or_create_request(name, ObjectCreationType::CreateIfMissing)
    }

    /// The app that the service found or created; an empty id means that it
    /// did neither.
    pub fn from_get_or_create(name: &str, app_id: String) -> (r: Result<App, Error>)
        ensures
            app_id@.len() == 0 ==> (r matches Err(Error::Other(m)) && m@ == app_not_created_text(name@)),
            app_id@.len() != 0 ==> (r matches Ok(a) && a@ == found_app(name@, app_id@)),
            r matches Ok(a) ==> a@.name == Some(name@) && a@.app_id == Some(app_id@) && a@.tags
                == Map::<String, String>::empty(),
    {
        if app_id.as_str().is_empty() {
            Err(other_error(String::from_str("Failed to create or get app '").concat(name).concat("'")))
        } else {
            Ok(found(name, app_id))
        }
    }

    /// The first step of a deployment: the app is found or created by its
    /// name, which it must have.
    pub fn deploy_request(&self) -> (r: Result<AppGetOrCreateRequest, Error>)
        ensures
            self@.name is None ==> (r matches Err(Error::Other(m)) && m@ == nameless_deploy_text()),
            self@.name matches Some(n) ==> (r matches Ok(req) && req.app_name@ == n
                && req.environment_name@.len() == 0 && req.object_creation_type
                == ObjectCreationType::CreateIfMissing),
    {
        match &self.name {
            None => Err(other_error(String::from_str("App name is required for deployment"))),
            Some(n) => Ok(get_or_create_request(n.as_str(), ObjectCreationType::CreateIfMissing)),
        }
    }

    /// The second step of a deployment: the app keeps the id that the service
    /// gave it, whatever it is, and is published as deployed with its name,
    /// its tags, the tag of the deployment (empty where there is none) and the
    /// ids of its functions and classes (none where not given).
    pub fn finish_deploy(
        &mut self,
        app_id: String,
        deployment_tag: Option<&str>,
        function_ids: Option<HashMap<String, String>>,
        class_ids: Option<HashMap<String, String>>,
    ) -> (r: AppPublishRequest)
        requires
            old(self)@.name is Some,
        ensures
            final(self)@ == (AppView { app_id: Some(app_id@), ..old(self)@ }),
            r.app_id@ == app_id@,
            Some(r.name@) == old(self)@.name,
            r.tags@ == old(self)@.tags,
            r.deployment_tag@ == (match deployment_tag {
                Some(t) => t@,
                None => Seq::empty(),
            }),
            r.app_state == AppState::Deployed,
            r.function_ids@ == opt_map_view(function_ids),
            r.class_ids@ == opt_map_view(class_ids),
            function_ids matches Some(m) ==> r.function_ids@ == m@,
            function_ids is None ==> r.function_ids@ == Map::<String, String>::empty(),
            class_ids matches Some(m) ==> r.class_ids@ == m@,
            class_ids is None ==> r.class_ids@ == Map::<String, String>::empty(),
            r.definition_ids@ == Map::<String, String>::empty(),
            r.rollback_version == 0,
            r.client_version@.len() == 0,
    {
        let name = match &self.name {
            Some(n) => n.clone(),
            None => String::new(),
        };
        let req = AppPublishRequest {
            app_id: app_id.clone(),
            name,
            tags: self.tags.clone(),
            deployment_tag: match deployment_tag {
                Some(t) => String::from_str(t),
                None => String::new(),
            },
            app_state: AppState::Deployed,
            function_ids: match function_ids {
                Some(m) => m,
                None => HashMap::new(),
            },
            class_ids: match class_ids {
                Some(m) => m,
                None => HashMap::new(),
            },
            definition_ids: HashMap::new(),
            rollback_version: 0,
            client_version: String::new(),
        };
        self.app_id = Some(app_id);
        req
    }

    /// The request that replaces the tags of the app, which must be deployed.
    /// The app's own tags change only once the service has taken them.
    pub fn set_tags_request(&self, tags: &HashMap<String, String>) -> (r: Result<AppSetTagsRequest, Error>)
        ensures
            self@.app_id is None ==> (r matches Err(Error::Other(m)) && m@ == undeployed_update_tags_text()),
            self@.app_id matches Some(id) ==> (r matches Ok(req) && req.app_id@ == id && req.tags@ == tags@),
    {
        match &self.app_id {
            None => Err(other_error(String::from_str("App must be deployed before updating tags"))),
            Some(id) => Ok(AppSetTagsRequest { app_id: id.clone(), tags: tags.clone() }),
        }
    }

    /// The request for the tags of the app, which must be deployed.
    pub fn get_tags_request(&self) -> (r: Result<AppGetTagsRequest, Error>)
        ensures
            self@.app_id is None ==> (r matches Err(Error::Other(m)) && m@ == undeployed_get_tags_text()),
            self@.app_id matches Some(id) ==> (r matches Ok(req) && req.app_id@ == id),
    {
        match &self.app_id {
            None => Err(other_error(String::from_str("App must be deployed before getting tags"))),
            Some(id) => Ok(AppGetTagsRequest { app_id: id.clone() }),
        }
    }

    /// The id of the app, once the service has given it one.
    pub fn app_id(&self) -> (r: Option<&str>)
        ensures
            match r {
                Some(s) => self@.app_id == Some(s@),
                None => self@.app_id is None,
            },
    {
        match &self.app_id {
            Some(s) => Some(s.as_str()),
            None => None,
        }
    }

    /// The name of the app.
    pub fn name(&self) -> (r: Option<&str>)
        ensures
            match r {
                Some(s) => self@.name == Some(s@),
                None => self@.name is None,
            },
    {
        match &self.name {
            Some(s) => Some(s.as_str()),
            None => None,
        }
    }

    /// Replaces the tags of the app; nothing else changes.
    pub fn set_tags(&mut self, tags: HashMap<String, String>)
        ensures
            final(self)@ == (AppView { tags: tags@, ..old(self)@ }),
    {
        self.tags = tags;
    }

    /// The tags of the app.
    pub fn tags(&self) -> (r: &HashMap<String, String>)
        ensures
            r@ == self@.tags,
    {
        &self.tags
    }
}

/// An app that a lookup found or created has the id that the service gave
/// and the name it was looked up by, whatever the id, and no tags yet.
pub proof fn lemma_found_app_keeps_name(name: Seq<char>, app_id: Seq<char>)
    ensures
        found_app(name, app_id).name == Some(name),
        found_app(name, app_id).app_id == Some(app_id),
        found_app(name, app_id).tags == Map::<String, String>::empty(),
{
}

/// The ids given for the functions or classes of a deployment are published
/// as they are, whatever their number; none given publishes none.
pub proof fn lemma_given_ids_published(ids: Option<HashMap<String, String>>)
    ensures
        ids matches Some(m) ==> opt_map_view(ids) == m@,
        ids is None ==> opt_map_view(ids) == Map::<String, String>::empty(),
{
}

} // verus!
