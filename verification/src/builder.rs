//! Configuring a client before it connects.
use vstd::prelude::*;

verus! {

/// Why a client or dispatcher could not be built.
#[derive(Debug, Clone, Copy, PartialEq, Eq)]
pub enum BuildError {
    /// No API id was given.
    MissingApiId,
    /// No API hash was given.
    MissingApiHash,
    /// No event dispatcher was given.
    MissingDispatcher,
}

impl BuildError {
    /// The message that describes the error.
    pub open spec fn message_spec(self) -> Seq<char> {
        match self {
            BuildError::MissingApiId => "API ID is required"@,
            BuildError::MissingApiHash => "API hash is required"@,
            BuildError::MissingDispatcher => "EventDispatcher is required"@,
        }
    }

    /// The message that describes the error.
    pub fn message(&self) -> (r: &'static str)
        ensures
            r@ == self.message_spec(),
    {
        match self {
            BuildError::MissingApiId => "API ID is required",
            BuildError::MissingApiHash => "API hash is required",
            BuildError::MissingDispatcher => "EventDispatcher is required",
        }
    }
}

/// A text that was given, or the default one.
pub open spec fn given_or(value: Option<String>, default: Seq<char>) -> Seq<char> {
    match value {
        Some(s) => s@,
        None => default,
    }
}

fn or_default(value: Option<String>, default: &str) -> (r: String)
    ensures
        r@ == given_or(value, default@),
{
    match value {
        Some(s) => s,
        None => default.to_owned(),
    }
}

/// Everything a client is configured with, defaults filled in. The session
/// is absent when it is to be loaded from (or created in) the file named
/// after the client; the dispatcher is checked only once connected.
pub struct ClientSettings<S, D> {
    pub api_id: i32,
    pub api_hash: String,
    pub client_name: String,
    pub device_model: String,
    pub system_version: String,
    pub app_version: String,
    pub system_lang_code: String,
    pub lang_code: String,
    pub session: Option<S>,
    pub dispatcher: Option<D>,
}

/// Collects the configuration of a client.
pub struct ClientBuilder<S, D> {
    api_id: Option<i32>,
    api_hash: Option<String>,
    client_name: Option<String>,
    device_model: Option<String>,
    system_version: Option<String>,
    app_version: Option<String>,
    system_lang_code: Option<String>,
    lang_code: Option<String>,
    session: Option<S>,
    dispatcher: Option<D>,
}

/// What a client builder holds: each setting given so far, if any.
pub struct ClientBuilderView<S, D> {
    pub api_id: Option<i32>,
    pub api_hash: Option<String>,
    pub client_name: Option<String>,
    pub device_model: Option<String>,
    pub system_version: Option<String>,
    pub app_version: Option<String>,
    pub system_lang_code: Option<String>,
    pub lang_code: Option<String>,
    pub session: Option<S>,
    pub dispatcher: Option<D>,
}

impl<S, D> View for ClientBuilder<S, D> {
    type V = ClientBuilderView<S, D>;

    closed spec fn view(&self) -> ClientBuilderView<S, D> {
        ClientBuilderView {
            api_id: self.api_id,
            api_hash: self.api_hash,
            client_name: self.client_name,
            device_model: self.device_model,
            system_version: self.system_version,
            app_version: self.app_version,
            system_lang_code: self.system_lang_code,
            lang_code: self.lang_code,
            session: self.session,
            dispatcher: self.dispatcher,
        }
    }
}

impl<S, D> ClientBuilder<S, D> {
    /// Nothing given at all.
    pub open spec fn is_blank(&self) -> bool {
        &&& self@.api_id is None
        &&& self@.api_hash is None
        &&& self@.client_name is None
        &&& self@.device_model is None
        &&& self@.system_version is None
        &&& self@.app_version is None
        &&& self@.system_lang_code is None
        &&& self@.lang_code is None
        &&& self@.session is None
        &&& self@.dispatcher is None
    }

    /// A builder with nothing given.
    pub fn new() -> (r: Self)
        ensures
            r.is_blank(),
    {
        ClientBuilder {
            api_id: None,
            api_hash: None,
            client_name: None,
            device_model: None,
            system_version: None,
            app_version: None,
            system_lang_code: None,
            lang_code: None,
            session: None,
            dispatcher: None,
        }
    }

    /// Gives the API id.
    pub fn api_id(self, api_id: i32) -> (r: Self)
        ensures
            r@ == (ClientBuilderView { api_id: Some(api_id), ..self@ }),
    {
        ClientBuilder { api_id: Some(api_id), ..self }
    }

    /// Gives the API hash.
    pub fn api_hash(self, api_hash: String) -> (r: Self)
        ensures
            r@ == (ClientBuilderView { api_hash: Some(api_hash), ..self@ }),
    {
        ClientBuilder { api_hash: Some(api_hash), ..self }
    }

    /// Gives the client name (also the name of the session file).
    pub fn client_name(self, client_name: String) -> (r: Self)
        ensures
            r@ == (ClientBuilderView { client_name: Some(client_name), ..self@ }),
    {
        ClientBuilder { client_name: Some(client_name), ..self }
    }

    /// Gives the device model.
    pub fn device_model(self, device_model: String) -> (r: Self)
        ensures
            r@ == (ClientBuilderView { device_model: Some(device_model), ..self@ }),
    {
        ClientBuilder { device_model: Some(device_model), ..self }
    }

    /// Gives the system version.
    pub fn system_version(self, system_version: String) -> (r: Self)
        ensures
            r@ == (ClientBuilderView { system_version: Some(system_version), ..self@ }),
    {
        ClientBuilder { system_version: Some(system_version), ..self }
    }

    /// Gives the app version.
    pub fn app_version(self, app_version: String) -> (r: Self)
        ensures
            r@ == (ClientBuilderView { app_version: Some(app_version), ..self@ }),
    {
        ClientBuilder { app_version: Some(app_version), ..self }
    }

    /// Gives the system language code.
    pub fn system_lang_code(self, system_lang_code: String) -> (r: Self)
        ensures
            r@ == (ClientBuilderView { system_lang_code: Some(system_lang_code), ..self@ }),
    {
        ClientBuilder { system_lang_code: Some(system_lang_code), ..self }
    }

    /// Gives the language code.
    pub fn lang_code(self, lang_code: String) -> (r: Self)
        ensures
            r@ == (ClientBuilderView { lang_code: Some(lang_code), ..self@ }),
    {
        ClientBuilder { lang_code: Some(lang_code), ..self }
    }

    /// Gives the session to use in place of the session file.
    pub fn session(self, session: S) -> (r: Self)
        ensures
            r@ == (ClientBuilderView { session: Some(session), ..self@ }),
    {
        ClientBuilder { session: Some(session), ..self }
    }

    /// Gives the event dispatcher.
    pub fn dispatcher(self, dispatcher: D) -> (r: Self)
        ensures
            r@ == (ClientBuilderView { dispatcher: Some(dispatcher), ..self@ }),
    {
        ClientBuilder { dispatcher: Some(dispatcher), ..self }
    }

    /// The configuration with defaults filled in. The API id and hash are
    /// required, checked in that order; the client name defaults to
    /// `tg-kit-session`, the device model to `Unknown`, the system and app
    /// versions to `1.0` and both language codes to `en`.
    pub fn settings(self) -> (r: Result<ClientSettings<S, D>, BuildError>)
        ensures
            self@.api_id is None ==> r == Err::<ClientSettings<S, D>, BuildError>(
                BuildError::MissingApiId,
            ),
            self@.api_id is Some && self@.api_hash is None ==> r == Err::<
                ClientSettings<S, D>,
                BuildError,
            >(BuildError::MissingApiHash),
            self@.api_id is Some && self@.api_hash is Some ==> (r matches Ok(c) && {
                &&& c.api_id == self@.api_id->0
                &&& c.api_hash == self@.api_hash->0
                &&& c.client_name@ == given_or(self@.client_name, "tg-kit-session"@)
                &&& c.device_model@ == given_or(self@.device_model, "Unknown"@)
                &&& c.system_version@ == given_or(self@.system_version, "1.0"@)
                &&& c.app_version@ == given_or(self@.app_version, "1.0"@)
                &&& c.system_lang_code@ == given_or(self@.system_lang_code, "en"@)
                &&& c.lang_code@ == given_or(self@.lang_code, "en"@)
                &&& c.session == self@.session
                &&& c.dispatcher == self@.dispatcher
            }),
    {
        let api_id = match self.api_id {
            Some(id) => id,
            None => return Err(BuildError::MissingApiId),
        };
        let api_hash = match self.api_hash {
            Some(h) => h,
            None => return Err(BuildError::MissingApiHash),
        };
        Ok(ClientSettings {
            api_id,
            api_hash,
            client_name: or_default(self.client_name, "tg-kit-session"),
            device_model: or_default(self.device_model, "Unknown"),
            system_version: or_default(self.system_version, "1.0"),
            app_version: or_default(self.app_version, "1.0"),
            system_lang_code: or_default(self.system_lang_code, "en"),
            lang_code: or_default(self.lang_code, "en"),
            session: self.session,
            dispatcher: self.dispatcher,
        })
    }
}

impl<S, D> ClientSettings<S, D> {
    /// The dispatcher, which a connected client cannot do without.
    pub fn take_dispatcher(&mut self) -> (r: Result<D, BuildError>)
        ensures
            old(self).dispatcher is None ==> r == Err::<D, BuildError>(BuildError::MissingDispatcher),
            old(self).dispatcher matches Some(d) ==> r == Ok::<D, BuildError>(d),
            final(self).dispatcher is None,
            final(self).api_id == old(self).api_id,
            final(self).api_hash == old(self).api_hash,
            final(self).client_name == old(self).client_name,
            final(self).device_model == old(self).device_model,
            final(self).system_version == old(self).system_version,
            final(self).app_version == old(self).app_version,
            final(self).system_lang_code == old(self).system_lang_code,
            final(self).lang_code == old(self).lang_code,
            final(self).session == old(self).session,
    {
        match self.dispatcher.take() {
            Some(d) => Ok(d),
            None => Err(BuildError::MissingDispatcher),
        }
    }
}

impl<S, D> Default for ClientBuilder<S, D> {
    fn default() -> (r: Self)
        ensures
            r.is_blank(),
    {
        Self::new()
    }
}

} // verus!
