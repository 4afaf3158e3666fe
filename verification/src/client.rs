//! The Pwnboard client: a validated base URI, a reusable HTTP transport
//! handle, and the three request-building operations.
//!
//! Each operation returns a [`Request`]: the target URL and the exact JSON
//! body to POST there. The embedding application performs the send.

use crate::json::{body_text, field_names, BodyBuilder, JsonValue};
use crate::level::LogLevel;
use vstd::prelude::*;
use vstd::string::StringExecFns;
use vstd::string::StrSliceExecFns;

verus! {

/// Declares reqwest's client type so that a handle can be held and passed
/// through; nothing inside it is relied on.
#[verifier::external_type_specification]
#[verifier::external_body]
pub struct ExReqwestClient(reqwest::Client);

/// Relies on reqwest::Client::new: builds a fresh transport handle from the
/// default configuration, which (with no TLS backend compiled in) cannot
/// fail. Nothing is claimed of the returned handle.
pub assume_specification[ reqwest::Client::new ]() -> reqwest::Client;

/// Why constructing a client failed: the base URI was malformed.
#[derive(Debug, Clone, Copy, PartialEq, Eq, Structural)]
pub enum ConstructionError {
    /// The base URI was the empty string.
    EmptyUri,
    /// The base URI ended in `/`.
    TrailingSlash,
}

impl ConstructionError {
    /// The wording of each failure.
    pub open spec fn spec_message(self) -> Seq<char> {
        match self {
            ConstructionError::EmptyUri => "invalid URI: it is empty"@,
            ConstructionError::TrailingSlash => "invalid URI: please do not provide a trailing slash"@,
        }
    }

    /// Human-readable description of the construction failure.
    pub fn message(&self) -> (r: String)
        ensures
            r@ == self.spec_message(),
    {
        match *self {
            ConstructionError::EmptyUri => String::from_str("invalid URI: it is empty"),
            ConstructionError::TrailingSlash => String::from_str(
                "invalid URI: please do not provide a trailing slash",
            ),
        }
    }
}

/// One outbound HTTP request, built and ready to send: the target URL and
/// the JSON text to POST there.
#[derive(Debug)]
pub struct Request {
    pub url: String,
    pub body: String,
}

/// The fields of a box-access payload: required `ip` and `application`,
/// then whichever of `ips`, `access_type`, `message` were supplied.
pub open spec fn boxaccess_fields(
    ip: Seq<char>,
    application: Seq<char>,
    ips: Option<Seq<Seq<char>>>,
    access_type: Option<Seq<char>>,
    message: Option<Seq<char>>,
) -> Seq<(Seq<char>, JsonValue)> {
    let fs = seq![("ip"@, JsonValue::Str(ip)), ("application"@, JsonValue::Str(application))];
    let fs = if ips is Some {
        fs.push(("ips"@, JsonValue::Arr(ips->0)))
    } else {
        fs
    };
    let fs = if access_type is Some {
        fs.push(("access_type"@, JsonValue::Str(access_type->0)))
    } else {
        fs
    };
    if message is Some {
        fs.push(("message"@, JsonValue::Str(message->0)))
    } else {
        fs
    }
}

/// The fields of a credential payload: required `ip`, `service`,
/// `password`, then whichever of `message`, `username` were supplied.
pub open spec fn credential_fields(
    ip: Seq<char>,
    service: Seq<char>,
    password: Seq<char>,
    message: Option<Seq<char>>,
    username: Option<Seq<char>>,
) -> Seq<(Seq<char>, JsonValue)> {
    let fs = seq![
        ("ip"@, JsonValue::Str(ip)),
        ("service"@, JsonValue::Str(service)),
        ("password"@, JsonValue::Str(password)),
    ];
    let fs = if message is Some {
        fs.push(("message"@, JsonValue::Str(message->0)))
    } else {
        fs
    };
    if username is Some {
        fs.push(("username"@, JsonValue::Str(username->0)))
    } else {
        fs
    }
}

/// The fields of a log payload: required `ip`, `message`, `service`, then
/// `level` (as its lowercase name) if one was supplied.
pub open spec fn log_fields(
    ip: Seq<char>,
    message: Seq<char>,
    service: Seq<char>,
    level: Option<LogLevel>,
) -> Seq<(Seq<char>, JsonValue)> {
    let fs = seq![
        ("ip"@, JsonValue::Str(ip)),
        ("message"@, JsonValue::Str(message)),
        ("service"@, JsonValue::Str(service)),
    ];
    match level {
        Some(l) => fs.push(("level"@, JsonValue::Str(l.spec_name()))),
        None => fs,
    }
}

/// Client for the Pwnboard scoreboard service.
///
/// Holds the validated base URI (never empty, never ending in `/`) and an
/// owned, reusable HTTP transport handle.
pub struct Pwnboard {
    pub uri: String,
    client: reqwest::Client,
}

impl Pwnboard {
    /// The base URI held by this client.
    pub closed spec fn base_uri(&self) -> Seq<char> {
        self.uri@
    }

    /// The transport handle held by this client.
    pub closed spec fn spec_transport(&self) -> reqwest::Client {
        self.client
    }

    /// The base URI is non-empty and has no trailing slash.
    pub open spec fn wf(&self) -> bool {
        self.base_uri().len() > 0 && self.base_uri().last() != '/'
    }

    /// Creates a new client pointing at the given base URI.
    ///
    /// Succeeds on exactly the non-empty URIs that do not end in `/`;
    /// fails with the matching [`ConstructionError`] otherwise.
    pub fn new(uri: &str) -> (r: Result<Pwnboard, ConstructionError>)
        ensures
            r is Ok <==> (uri@.len() > 0 && uri@.last() != '/'),
            r matches Ok(p) ==> p.base_uri() == uri@ && p.wf(),
            r matches Err(e) ==> e == (if uri@.len() == 0 {
                ConstructionError::EmptyUri
            } else {
                ConstructionError::TrailingSlash
            }),
    {
        if uri.is_empty() {
            return Err(ConstructionError::EmptyUri);
        }
        let n = uri.unicode_len();
        let last = uri.get_char(n - 1);
        if last == '/' {
            Err(ConstructionError::TrailingSlash)
        } else {
            Ok(Pwnboard { uri: String::from_str(uri), client: reqwest::Client::new() })
        }
    }

    /// The transport handle, for the embedding application to send the
    /// built requests with.
    pub fn transport(&self) -> (r: &reqwest::Client)
        ensures
            *r == self.spec_transport(),
    {
        &self.client
    }

    /// The URL of one route: the base URI followed by the given path.
    fn route(&self, path: &str) -> (r: String)
        ensures
            r@ == self.base_uri() + path@,
    {
        let mut url = String::from_str(self.uri.as_str());
        url.append(path);
        url
    }

    /// Builds the request reporting access to a box via an application:
    /// a POST to `{base_uri}/pwn/boxaccess` whose body holds `ip` and
    /// `application`, plus whichever of `ips`, `access_type`, `message`
    /// were supplied.
    pub fn boxaccess_request(
        &self,
        ip: &str,
        application: &str,
        ips: Option<&[&str]>,
        access_type: Option<&str>,
        message: Option<&str>,
    ) -> (r: Request)
        ensures
            r.url@ == self.base_uri() + "/pwn/boxaccess"@,
            r.body@ == body_text(
                boxaccess_fields(
                    ip@,
                    application@,
                    ips.deep_view(),
                    access_type.deep_view(),
                    message.deep_view(),
                ),
            ),
    {
        let mut b = BodyBuilder::new();
        b.push_string("ip", ip);
        b.push_string("application", application);
        if let Some(ip_list) = ips {
            b.push_array("ips", ip_list);
        }
        if let Some(access_val) = access_type {
            b.push_string("access_type", access_val);
        }
        if let Some(message_val) = message {
            b.push_string("message", message_val);
        }
        proof {
            assert(b.fields() =~= boxaccess_fields(
                ip@,
                application@,
                ips.deep_view(),
                access_type.deep_view(),
                message.deep_view(),
            ));
        }
        let body = b.finish();
        Request { url: self.route("/pwn/boxaccess"), body }
    }

    /// Builds the request reporting a captured credential: a POST to
    /// `{base_uri}/pwn/credential` whose body holds `ip`, `service` and
    /// `password`, plus whichever of `message`, `username` were supplied.
    pub fn credential_request(
        &self,
        ip: &str,
        service: &str,
        message: Option<&str>,
        username: Option<&str>,
        password: &str,
    ) -> (r: Request)
        ensures
            r.url@ == self.base_uri() + "/pwn/credential"@,
            r.body@ == body_text(
                credential_fields(ip@, service@, password@, message.deep_view(), username.deep_view()),
            ),
    {
        let mut b = BodyBuilder::new();
        b.push_string("ip", ip);
        b.push_string("service", service);
        b.push_string("password", password);
        if let Some(message_val) = message {
            b.push_string("message", message_val);
        }
        if let Some(username_val) = username {
            b.push_string("username", username_val);
        }
        proof {
            assert(b.fields() =~= credential_fields(
                ip@,
                service@,
                password@,
                message.deep_view(),
                username.deep_view(),
            ));
        }
        let body = b.finish();
        Request { url: self.route("/pwn/credential"), body }
    }

    /// Builds the request logging an event for a service: a POST to
    /// `{base_uri}/pwn/log` whose body holds `ip`, `message` and `service`,
    /// plus `level` (as its lowercase name) if one was supplied.
    pub fn log_request(
        &self,
        ip: &str,
        message: &str,
        service: &str,
        level: Option<LogLevel>,
    ) -> (r: Request)
        ensures
            r.url@ == self.base_uri() + "/pwn/log"@,
            r.body@ == body_text(log_fields(ip@, message@, service@, level)),
    {
        let mut b = BodyBuilder::new();
        b.push_string("ip", ip);
        b.push_string("message", message);
        b.push_string("service", service);
        if let Some(level_val) = level {
            let name = level_val.name();
            b.push_string("level", name.as_str());
        }
        proof {
            assert(b.fields() =~= log_fields(ip@, message@, service@, level));
        }
        let body = b.finish();
        Request { url: self.route("/pwn/log"), body }
    }
}

/// Law: a box-access payload holds exactly the required fields `ip` and
/// `application`, plus each optional field exactly when it was supplied,
/// in that order and nothing else.
pub proof fn lemma_boxaccess_fields_exact(
    ip: Seq<char>,
    application: Seq<char>,
    ips: Option<Seq<Seq<char>>>,
    access_type: Option<Seq<char>>,
    message: Option<Seq<char>>,
)
    ensures
        field_names(boxaccess_fields(ip, application, ips, access_type, message)) == seq![
            "ip"@,
            "application"@,
        ] + (if ips is Some {
            seq!["ips"@]
        } else {
            Seq::<Seq<char>>::empty()
        }) + (if access_type is Some {
            seq!["access_type"@]
        } else {
            Seq::<Seq<char>>::empty()
        }) + (if message is Some {
            seq!["message"@]
        } else {
            Seq::<Seq<char>>::empty()
        }),
{
    lemma_field_names_two(("ip"@, JsonValue::Str(ip)), ("application"@, JsonValue::Str(application)));
    let fs0 = seq![("ip"@, JsonValue::Str(ip)), ("application"@, JsonValue::Str(application))];
    let fs1 = if ips is Some {
        fs0.push(("ips"@, JsonValue::Arr(ips->0)))
    } else {
        fs0
    };
    let fs2 = if access_type is Some {
        fs1.push(("access_type"@, JsonValue::Str(access_type->0)))
    } else {
        fs1
    };
    if ips is Some {
        crate::json::lemma_field_names_push(fs0, ("ips"@, JsonValue::Arr(ips->0)));
    }
    if access_type is Some {
        crate::json::lemma_field_names_push(fs1, ("access_type"@, JsonValue::Str(access_type->0)));
    }
    if message is Some {
        crate::json::lemma_field_names_push(fs2, ("message"@, JsonValue::Str(message->0)));
    }
    assert(field_names(boxaccess_fields(ip, application, ips, access_type, message)) =~= seq![
        "ip"@,
        "application"@,
    ] + (if ips is Some {
        seq!["ips"@]
    } else {
        Seq::<Seq<char>>::empty()
    }) + (if access_type is Some {
        seq!["access_type"@]
    } else {
        Seq::<Seq<char>>::empty()
    }) + (if message is Some {
        seq!["message"@]
    } else {
        Seq::<Seq<char>>::empty()
    }));
}

/// Law: a credential payload holds exactly the required fields `ip`,
/// `service` and `password`, plus each optional field exactly when it was
/// supplied, in that order and nothing else.
pub proof fn lemma_credential_fields_exact(
    ip: Seq<char>,
    service: Seq<char>,
    password: Seq<char>,
    message: Option<Seq<char>>,
    username: Option<Seq<char>>,
)
    ensures
        field_names(credential_fields(ip, service, password, message, username)) == seq![
            "ip"@,
            "service"@,
            "password"@,
        ] + (if message is Some {
            seq!["message"@]
        } else {
            Seq::<Seq<char>>::empty()
        }) + (if username is Some {
            seq!["username"@]
        } else {
            Seq::<Seq<char>>::empty()
        }),
{
    lemma_field_names_three(
        ("ip"@, JsonValue::Str(ip)),
        ("service"@, JsonValue::Str(service)),
        ("password"@, JsonValue::Str(password)),
    );
    let fs0 = seq![
        ("ip"@, JsonValue::Str(ip)),
        ("service"@, JsonValue::Str(service)),
        ("password"@, JsonValue::Str(password)),
    ];
    let fs1 = if message is Some {
        fs0.push(("message"@, JsonValue::Str(message->0)))
    } else {
        fs0
    };
    if message is Some {
        crate::json::lemma_field_names_push(fs0, ("message"@, JsonValue::Str(message->0)));
    }
    if username is Some {
        crate::json::lemma_field_names_push(fs1, ("username"@, JsonValue::Str(username->0)));
    }
    assert(field_names(credential_fields(ip, service, password, message, username)) =~= seq![
        "ip"@,
        "service"@,
        "password"@,
    ] + (if message is Some {
        seq!["message"@]
    } else {
        Seq::<Seq<char>>::empty()
    }) + (if username is Some {
        seq!["username"@]
    } else {
        Seq::<Seq<char>>::empty()
    }));
}

/// Law: a log payload holds exactly the required fields `ip`, `message`
/// and `service`, plus `level` exactly when a level was supplied, in that
/// order and nothing else.
pub proof fn lemma_log_fields_exact(
    ip: Seq<char>,
    message: Seq<char>,
    service: Seq<char>,
    level: Option<LogLevel>,
)
    ensures
        field_names(log_fields(ip, message, service, level)) == seq![
            "ip"@,
            "message"@,
            "service"@,
        ] + (if level is Some {
            seq!["level"@]
        } else {
            Seq::<Seq<char>>::empty()
        }),
{
    lemma_field_names_three(
        ("ip"@, JsonValue::Str(ip)),
        ("message"@, JsonValue::Str(message)),
        ("service"@, JsonValue::Str(service)),
    );
    let fs0 = seq![
        ("ip"@, JsonValue::Str(ip)),
        ("message"@, JsonValue::Str(message)),
        ("service"@, JsonValue::Str(service)),
    ];
    if level is Some {
        crate::json::lemma_field_names_push(fs0, ("level"@, JsonValue::Str(level->0.spec_name())));
    }
    assert(field_names(log_fields(ip, message, service, level)) =~= seq![
        "ip"@,
        "message"@,
        "service"@,
    ] + (if level is Some {
        seq!["level"@]
    } else {
        Seq::<Seq<char>>::empty()
    }));
}

/// The names of a two-field sequence, spelled out.
proof fn lemma_field_names_two(a: (Seq<char>, JsonValue), b: (Seq<char>, JsonValue))
    ensures
        field_names(seq![a, b]) == seq![a.0, b.0],
{
    assert(seq![a].drop_last() =~= Seq::<(Seq<char>, JsonValue)>::empty());
    assert(field_names(Seq::<(Seq<char>, JsonValue)>::empty()) =~= Seq::<Seq<char>>::empty());
    assert(field_names(seq![a]) =~= seq![a.0]);
    assert(seq![a, b].drop_last() =~= seq![a]);
    assert(field_names(seq![a, b]) =~= seq![a.0, b.0]);
}

/// The names of a three-field sequence, spelled out.
proof fn lemma_field_names_three(
    a: (Seq<char>, JsonValue),
    b: (Seq<char>, JsonValue),
    c: (Seq<char>, JsonValue),
)
    ensures
        field_names(seq![a, b, c]) == seq![a.0, b.0, c.0],
{
    lemma_field_names_two(a, b);
    assert(seq![a, b, c].drop_last() =~= seq![a, b]);
    assert(field_names(seq![a, b, c]) =~= seq![a.0, b.0, c.0]);
}

} // verus!
