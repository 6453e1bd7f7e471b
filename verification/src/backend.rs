//! The OpenDrive backend builder: configuration, validation, and
//! assembly of the accessor.

use vstd::prelude::*;

use crate::accessor::AccessorInfo;
use crate::accessor::Scheme;
use crate::capability::Capability;
use crate::error::Error;
use crate::error::ErrorKind;
use crate::external::build_auth_client;
use crate::opendrive::OpendriveCore;
use crate::opendrive::OpendriveSigner;
use crate::opendrive::opendrive_base_url;
use crate::path::normalize_root;
use crate::path::spec_trim_slashes;

verus! {

/// The shared HTTP client handle a backend sends its requests through.
pub struct HttpClient {
    pub client: reqwest::Client,
}

/// Everything an OpenDrive backend can be configured with.
pub struct OpendriveConfig {
    pub root: Option<String>,
    pub access_token: Option<String>,
    pub refresh_token: Option<String>,
    pub username: Option<String>,
    pub password: Option<String>,
}

impl OpendriveConfig {
    /// A configuration with nothing set.
    pub fn new() -> (r: OpendriveConfig)
        ensures
            r.root is None,
            r.access_token is None,
            r.refresh_token is None,
            r.username is None,
            r.password is None,
    {
        OpendriveConfig {
            root: None,
            access_token: None,
            refresh_token: None,
            username: None,
            password: None,
        }
    }

    /// Wrap the configuration in a builder.
    pub fn into_builder(self) -> (r: OpendriveBuilder)
        ensures
            r.config == self,
            r.http_client is None,
    {
        OpendriveBuilder { config: self, http_client: None }
    }
}

/// The capability set a native OpenDrive backend declares.
pub open spec fn spec_opendrive_native_capability() -> Capability {
    Capability {
        create_dir: true,
        copy: true,
        rename: true,
        delete: true,
        delete_with_version: true,
        read: true,
        read_with_if_match: true,
        read_with_if_none_match: true,
        read_with_if_modified_since: true,
        read_with_if_unmodified_since: true,
        read_with_version: true,
        stat: true,
        stat_with_if_match: true,
        stat_with_if_none_match: true,
        stat_with_if_modified_since: true,
        stat_with_if_unmodified_since: true,
        stat_with_version: true,
        write: true,
        write_can_append: true,
        write_can_empty: true,
        write_can_multi: true,
        write_with_if_match: true,
        write_with_if_none_match: true,
        write_with_if_not_exists: true,
        list: true,
        list_with_recursive: true,
        shared: true,
    }
}

/// The capability set a native OpenDrive backend declares.
pub fn opendrive_native_capability() -> (r: Capability)
    ensures
        r == spec_opendrive_native_capability(),
{
    let mut cap = Capability::none();
    cap.create_dir = true;
    cap.copy = true;
    cap.rename = true;
    cap.delete = true;
    cap.delete_with_version = true;
    cap.read = true;
    cap.read_with_if_match = true;
    cap.read_with_if_none_match = true;
    cap.read_with_if_modified_since = true;
    cap.read_with_if_unmodified_since = true;
    cap.read_with_version = true;
    cap.stat = true;
    cap.stat_with_if_match = true;
    cap.stat_with_if_none_match = true;
    cap.stat_with_if_modified_since = true;
    cap.stat_with_if_unmodified_since = true;
    cap.stat_with_version = true;
    cap.write = true;
    cap.write_can_append = true;
    cap.write_can_empty = true;
    cap.write_can_multi = true;
    cap.write_with_if_match = true;
    cap.write_with_if_none_match = true;
    cap.write_with_if_not_exists = true;
    cap.list = true;
    cap.list_with_recursive = true;
    cap.shared = true;
    cap
}

/// Builds an OpenDrive backend from its configuration.
pub struct OpendriveBuilder {
    pub config: OpendriveConfig,
    pub http_client: Option<HttpClient>,
}

impl OpendriveBuilder {
    /// A builder over an empty configuration.
    pub fn new() -> (r: OpendriveBuilder)
        ensures
            r.config.root is None,
            r.config.access_token is None,
            r.config.refresh_token is None,
            r.config.username is None,
            r.config.password is None,
            r.http_client is None,
    {
        OpendriveConfig::new().into_builder()
    }

    /// Set the root path of the OpenDrive folder; an empty root clears
    /// the setting.
    pub fn root(self, root: &str) -> (r: OpendriveBuilder)
        ensures
            root@.len() == 0 ==> r.config.root is None,
            root@.len() > 0 ==> (r.config.root matches Some(s) && s@ == root@),
            r.config.access_token == self.config.access_token,
            r.config.refresh_token == self.config.refresh_token,
            r.config.username == self.config.username,
            r.config.password == self.config.password,
    {
        let mut config = self.config;
        config.root = if root.unicode_len() == 0 {
            None
        } else {
            Some(root.to_owned())
        };
        OpendriveBuilder { config, http_client: self.http_client }
    }

    /// Specify the HTTP client this backend sends its requests through.
    pub fn http_client(self, http_client: HttpClient) -> (r: OpendriveBuilder)
        ensures
            r.http_client is Some,
            r.config == self.config,
    {
        OpendriveBuilder { config: self.config, http_client: Some(http_client) }
    }

    /// Set the short-lived access token for the OpenDrive API.
    pub fn access_token(self, access_token: &str) -> (r: OpendriveBuilder)
        ensures
            r.config.access_token matches Some(s) && s@ == access_token@,
            r.config.root == self.config.root,
            r.config.refresh_token == self.config.refresh_token,
            r.config.username == self.config.username,
            r.config.password == self.config.password,
    {
        let mut config = self.config;
        config.access_token = Some(access_token.to_owned());
        OpendriveBuilder { config, http_client: self.http_client }
    }

    /// Set the refresh token for long-term access to the OpenDrive API.
    pub fn refresh_token(self, refresh_token: &str) -> (r: OpendriveBuilder)
        ensures
            r.config.refresh_token matches Some(s) && s@ == refresh_token@,
            r.config.root == self.config.root,
            r.config.access_token == self.config.access_token,
            r.config.username == self.config.username,
            r.config.password == self.config.password,
    {
        let mut config = self.config;
        config.refresh_token = Some(refresh_token.to_owned());
        OpendriveBuilder { config, http_client: self.http_client }
    }

    /// Set the username the OpenDrive login requires.
    pub fn username(self, username: &str) -> (r: OpendriveBuilder)
        ensures
            r.config.username matches Some(s) && s@ == username@,
            r.config.root == self.config.root,
            r.config.access_token == self.config.access_token,
            r.config.refresh_token == self.config.refresh_token,
            r.config.password == self.config.password,
    {
        let mut config = self.config;
        config.username = Some(username.to_owned());
        OpendriveBuilder { config, http_client: self.http_client }
    }

    /// Set the password the OpenDrive login requires.
    pub fn password(self, password: &str) -> (r: OpendriveBuilder)
        ensures
            r.config.password matches Some(s) && s@ == password@,
            r.config.root == self.config.root,
            r.config.access_token == self.config.access_token,
            r.config.refresh_token == self.config.refresh_token,
            r.config.username == self.config.username,
    {
        let mut config = self.config;
        config.password = Some(password.to_owned());
        OpendriveBuilder { config, http_client: self.http_client }
    }

    /// Build the accessor: normalize the root, demand credentials,
    /// declare the native capability, attach the supplied HTTP client,
    /// and arm the signer with its proxied client. Missing credentials
    /// are `ConfigInvalid`, tagged with the building operation and the
    /// service.
    pub fn build(self) -> (r: Result<OpendriveAccessor, Error>)
        ensures
            self.config.username is None ==> (r matches Err(e) && e.kind
                == ErrorKind::ConfigInvalid && e.message@ == "username is empty"@ && e.operation@
                == "Builder::build"@ && e.context@ == "service=opendrive"@),
            self.config.username is Some && self.config.password is None ==> (r matches Err(e)
                && e.kind == ErrorKind::ConfigInvalid && e.message@ == "password is empty"@
                && e.operation@ == "Builder::build"@ && e.context@ == "service=opendrive"@),
            self.config.username is Some && self.config.password is Some ==> match r {
                Ok(accessor) => {
                    &&& accessor.core.root@ == seq!['/'] + spec_trim_slashes(
                        match self.config.root {
                            Some(root) => root@,
                            None => Seq::<char>::empty(),
                        },
                    )
                    &&& accessor.core.spec_root_ok()
                    &&& accessor.core.info.root@ == accessor.core.root@
                    &&& accessor.core.info.scheme == Scheme::Opendrive
                    &&& accessor.core.info.capability == spec_opendrive_native_capability()
                    &&& (self.http_client is Some ==> accessor.core.info.http_client is Some)
                    &&& (self.http_client is None ==> accessor.core.info.http_client is None)
                    &&& accessor.core.signer.username@ == match self.config.username {
                        Some(u) => u@,
                        None => Seq::<char>::empty(),
                    }
                    &&& accessor.core.signer.password@ == match self.config.password {
                        Some(p) => p@,
                        None => Seq::<char>::empty(),
                    }
                    &&& accessor.core.signer.access_token@ == Seq::<char>::empty()
                },
                Err(e) => e.kind == ErrorKind::ConfigInvalid && e.operation@ == "Builder::build"@
                    && e.context@ == "service=opendrive"@,
            },
    {
        proof {
            reveal_strlit("service");
            reveal_strlit("=");
            reveal_strlit("opendrive");
            reveal_strlit("service=opendrive");
            assert("service"@ + "="@ + "opendrive"@ =~= "service=opendrive"@);
        }
        let root_src = match self.config.root {
            Some(root) => root,
            None => String::new(),
        };
        let root = normalize_root(root_src.as_str());
        let username = match self.config.username {
            Some(username) => username,
            None => {
                return Err(
                    Error::new(ErrorKind::ConfigInvalid, "username is empty".to_owned())
                        .with_operation("Builder::build").with_context("service", "opendrive"),
                );
            },
        };
        let password = match self.config.password {
            Some(password) => password,
            None => {
                return Err(
                    Error::new(ErrorKind::ConfigInvalid, "password is empty".to_owned())
                        .with_operation("Builder::build").with_context("service", "opendrive"),
                );
            },
        };
        let mut info = AccessorInfo::new(
            Scheme::Opendrive,
            root.clone(),
            opendrive_native_capability(),
        );
        if let Some(client) = self.http_client {
            info.update_http_client(client.client);
        }
        let auth_http_client = match build_auth_client(opendrive_base_url()) {
            Ok(client) => client,
            Err(e) => {
                return Err(
                    e.with_operation("Builder::build").with_context("service", "opendrive"),
                );
            },
        };
        let signer = OpendriveSigner::new(auth_http_client, username.as_str(), password.as_str());
        let core = OpendriveCore { info, root, signer };
        Ok(OpendriveAccessor { core })
    }
}

/// The assembled OpenDrive backend: the core, ready for its operations
/// to be planned and their replies folded.
pub struct OpendriveAccessor {
    pub core: OpendriveCore,
}

impl OpendriveAccessor {
    /// The accessor's metadata.
    pub fn info(&self) -> (r: &AccessorInfo)
        ensures
            r == &self.core.info,
    {
        &self.core.info
    }
}

} // verus!
