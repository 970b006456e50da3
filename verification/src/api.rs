//! The request-handling decisions of the task and user endpoints. The
//! document store and the HTTP transport are external collaborators: each
//! handler here takes the store's result as a value, decides the response
//! exactly, and — for the mutating task handlers — notifies every
//! registered connection after a successful write.

use vstd::prelude::*;
use vstd::string::*;
use crate::auth::{Utils, argon2d_verifies, jwt_sub_of, phc_parses};
use crate::channel::{ChannelView, spec_send};
use crate::payload::{lemma_standard_tags_valid, spec_serialize};
use crate::registry::ConnectionRegistry;

verus! {

/// The body of a task to create.
#[derive(Debug, Clone)]
pub struct TareasHttp {
    pub nombre: String,
}

/// A stored task.
#[derive(Debug, Clone)]
pub struct Tareas {
    pub id: String,
    pub nombre: String,
    pub id_usuario: String,
    pub estado: bool,
    pub create_at: i64,
    pub update_at: i64,
}

/// The body of a registration or login request.
#[derive(Debug, Clone)]
pub struct UsuariosHttp {
    pub username: String,
    pub password: String,
}

/// A stored user.
#[derive(Debug, Clone)]
pub struct Usuarios {
    pub id: String,
    pub username: String,
    pub password: String,
    pub create_at: i64,
}

/// The error body the endpoints answer with.
#[derive(Debug, Clone, Copy, PartialEq, Eq, Structural)]
pub struct AdduserResponse {
    pub error: i8,
}

/// The document store failed to run a query.
#[derive(Debug, Clone, Copy, PartialEq, Eq, Structural)]
pub struct DbError {}

/// An error response: HTTP status and body.
#[derive(Debug, Clone, Copy, PartialEq, Eq, Structural)]
pub struct ApiError {
    pub status: u16,
    pub body: AdduserResponse,
}

/// What the store reports of one write.
#[derive(Debug, Clone, Copy, PartialEq, Eq, Structural)]
pub struct WriteSummary {
    pub inserted: u64,
    pub replaced: u64,
    pub deleted: u64,
}

/// The registry after `pre` once every registered channel was offered the
/// frame for `tag`: same connections, and each channel holds the frame
/// unless it was full or closed.
pub open spec fn notified(
    pre: Map<Seq<char>, ChannelView>,
    post: Map<Seq<char>, ChannelView>,
    tag: Seq<char>,
) -> bool {
    &&& post.dom() == pre.dom()
    &&& forall|k: Seq<char>| #[trigger] pre.dom().contains(k) ==> post[k] == spec_send(
        pre[k],
        spec_serialize(tag),
    )
}

impl TareasHttp {
    /// The request body carries no constraints, so validation always
    /// passes.
    pub fn validate(&self) -> (r: bool)
        ensures
            r,
    {
        true
    }
}

impl UsuariosHttp {
    /// The request body carries no constraints, so validation always
    /// passes.
    pub fn validate(&self) -> (r: bool)
        ensures
            r,
    {
        true
    }
}

impl Tareas {
    /// Interprets the store's report of a state-change write: the task was
    /// updated exactly when a document was replaced.
    pub fn change_estado(res: Result<WriteSummary, DbError>) -> (r: Result<bool, DbError>)
        ensures
            match res {
                Ok(ws) => r == Ok::<bool, DbError>(ws.replaced > 0),
                Err(e) => r == Err::<bool, DbError>(e),
            },
    {
        match res {
            Ok(ws) => Ok(ws.replaced > 0),
            Err(e) => Err(e),
        }
    }

    /// Interprets the store's report of an insert that returned its
    /// changes: the created tasks when a document was inserted, nothing
    /// otherwise.
    pub fn add_tarea(res: Result<(WriteSummary, Vec<Tareas>), DbError>) -> (r: Result<
        Vec<Tareas>,
        DbError,
    >)
        ensures
            match res {
                Ok(p) => if p.0.inserted > 0 {
                    r matches Ok(v) && v == p.1
                } else {
                    r matches Ok(v) && v@.len() == 0
                },
                Err(e) => r == Err::<Vec<Tareas>, DbError>(e),
            },
    {
        match res {
            Ok((ws, changes)) => if ws.inserted > 0 {
                Ok(changes)
            } else {
                Ok(Vec::new())
            },
            Err(e) => Err(e),
        }
    }

    /// Interprets the store's report of a delete by id: the task existed
    /// and is gone exactly when a document was deleted.
    pub fn delete_tarea_by_id(res: Result<WriteSummary, DbError>) -> (r: Result<bool, DbError>)
        ensures
            match res {
                Ok(ws) => r == Ok::<bool, DbError>(ws.deleted > 0),
                Err(e) => r == Err::<bool, DbError>(e),
            },
    {
        match res {
            Ok(ws) => Ok(ws.deleted > 0),
            Err(e) => Err(e),
        }
    }

    /// Interprets the store's report of a delete of every task of one user.
    pub fn delete_all_tareas_by_usuario(res: Result<WriteSummary, DbError>) -> (r: Result<
        bool,
        DbError,
    >)
        ensures
            match res {
                Ok(ws) => r == Ok::<bool, DbError>(ws.deleted > 0),
                Err(e) => r == Err::<bool, DbError>(e),
            },
    {
        match res {
            Ok(ws) => Ok(ws.deleted > 0),
            Err(e) => Err(e),
        }
    }
}

impl Usuarios {
    /// Prepares the stored fields of a new user: the password is hashed,
    /// and on success the hash is a PHC string that verifies against the
    /// given password; `create_at` is the clock's current reading.
    pub fn prepare_add(user: &UsuariosHttp) -> (r: Result<(String, i64), String>)
        ensures
            r matches Ok(p) ==> phc_parses(p.0@) && argon2d_verifies(user.password@, p.0@),
    {
        match Utils::hash_password_argon2d(user.password.as_str()) {
            Ok(hash) => Ok((hash, Utils::current_timestamp())),
            Err(e) => Err(e),
        }
    }

    /// Interprets the store's report of the user insert: the user was added
    /// exactly when a document was inserted.
    pub fn add_result(res: Result<WriteSummary, DbError>) -> (r: Result<bool, DbError>)
        ensures
            match res {
                Ok(ws) => r == Ok::<bool, DbError>(ws.inserted > 0),
                Err(e) => r == Err::<bool, DbError>(e),
            },
    {
        match res {
            Ok(ws) => Ok(ws.inserted > 0),
            Err(e) => Err(e),
        }
    }
}

/// The task-list endpoint: the user's tasks when there are any, a not-found
/// error when there are none, a server error when the store failed.
pub fn get_all_tareas(lookup: Result<Vec<Tareas>, DbError>) -> (r: Result<Vec<Tareas>, ApiError>)
    ensures
        match lookup {
            Ok(ts) => if ts@.len() > 0 {
                r matches Ok(v) && v == ts
            } else {
                r == Err::<Vec<Tareas>, ApiError>(
                    ApiError { status: 404, body: AdduserResponse { error: 1 } },
                )
            },
            Err(_) => r == Err::<Vec<Tareas>, ApiError>(
                ApiError { status: 500, body: AdduserResponse { error: 2 } },
            ),
        },
{
    match lookup {
        Ok(ts) => if ts.len() > 0 {
            Ok(ts)
        } else {
            Err(ApiError { status: 404, body: AdduserResponse { error: 1 } })
        },
        Err(_) => Err(ApiError { status: 500, body: AdduserResponse { error: 2 } }),
    }
}

/// The single-task endpoint: the matching tasks when the id was found, a
/// not-found error otherwise, a server error when the store failed.
pub fn get_tarea_by_id(lookup: Result<Vec<Tareas>, DbError>) -> (r: Result<Vec<Tareas>, ApiError>)
    ensures
        match lookup {
            Ok(ts) => if ts@.len() > 0 {
                r matches Ok(v) && v == ts
            } else {
                r == Err::<Vec<Tareas>, ApiError>(
                    ApiError { status: 404, body: AdduserResponse { error: 1 } },
                )
            },
            Err(_) => r == Err::<Vec<Tareas>, ApiError>(
                ApiError { status: 500, body: AdduserResponse { error: 2 } },
            ),
        },
{
    match lookup {
        Ok(ts) => if ts.len() > 0 {
            Ok(ts)
        } else {
            Err(ApiError { status: 404, body: AdduserResponse { error: 1 } })
        },
        Err(_) => Err(ApiError { status: 500, body: AdduserResponse { error: 2 } }),
    }
}

/// The create-task endpoint: on a successful insert, every registered
/// connection is notified with the `new` tag and the created tasks are
/// returned; otherwise the registry is untouched and the error is exact.
pub fn add_tarea(insert: Result<Vec<Tareas>, DbError>, clients: &mut ConnectionRegistry) -> (r:
    Result<Vec<Tareas>, ApiError>)
    requires
        old(clients).wf(),
    ensures
        final(clients).wf(),
        match insert {
            Ok(ts) => if ts@.len() > 0 {
                (r matches Ok(v) && v == ts) && notified(old(clients)@, final(clients)@, "new"@)
            } else {
                r == Err::<Vec<Tareas>, ApiError>(
                    ApiError { status: 400, body: AdduserResponse { error: 1 } },
                ) && final(clients)@ == old(clients)@
            },
            Err(_) => r == Err::<Vec<Tareas>, ApiError>(
                ApiError { status: 500, body: AdduserResponse { error: 2 } },
            ) && final(clients)@ == old(clients)@,
        },
{
    match insert {
        Ok(ts) => if ts.len() > 0 {
            proof {
                lemma_standard_tags_valid();
            }
            Utils::send_ws(clients, "new");
            Ok(ts)
        } else {
            Err(ApiError { status: 400, body: AdduserResponse { error: 1 } })
        },
        Err(_) => Err(ApiError { status: 500, body: AdduserResponse { error: 2 } }),
    }
}

/// The change-state endpoint: on a successful update, every registered
/// connection is notified with the `update` tag; otherwise the registry is
/// untouched and the error is exact.
pub fn change_estado(update: Result<bool, DbError>, clients: &mut ConnectionRegistry) -> (r: Result<
    String,
    ApiError,
>)
    requires
        old(clients).wf(),
    ensures
        final(clients).wf(),
        match update {
            Ok(done) => if done {
                (r matches Ok(s) && s@ == "Ok "@) && notified(
                    old(clients)@,
                    final(clients)@,
                    "update"@,
                )
            } else {
                r == Err::<String, ApiError>(
                    ApiError { status: 500, body: AdduserResponse { error: 2 } },
                ) && final(clients)@ == old(clients)@
            },
            Err(_) => r == Err::<String, ApiError>(
                ApiError { status: 400, body: AdduserResponse { error: 1 } },
            ) && final(clients)@ == old(clients)@,
        },
{
    match update {
        Ok(done) => if done {
            proof {
                lemma_standard_tags_valid();
            }
            Utils::send_ws(clients, "update");
            Ok(String::from_str("Ok "))
        } else {
            Err(ApiError { status: 500, body: AdduserResponse { error: 2 } })
        },
        Err(_) => Err(ApiError { status: 400, body: AdduserResponse { error: 1 } }),
    }
}

/// The delete-one-task endpoint: on a successful delete, every registered
/// connection is notified with the `delete_one` tag; otherwise the registry
/// is untouched and the error is exact.
pub fn delete_tarea_by_id(deleted: Result<bool, DbError>, clients: &mut ConnectionRegistry) -> (r:
    Result<String, ApiError>)
    requires
        old(clients).wf(),
    ensures
        final(clients).wf(),
        match deleted {
            Ok(done) => if done {
                (r matches Ok(s) && s@ == "Ok "@) && notified(
                    old(clients)@,
                    final(clients)@,
                    "delete_one"@,
                )
            } else {
                r == Err::<String, ApiError>(
                    ApiError { status: 500, body: AdduserResponse { error: 2 } },
                ) && final(clients)@ == old(clients)@
            },
            Err(_) => r == Err::<String, ApiError>(
                ApiError { status: 400, body: AdduserResponse { error: 1 } },
            ) && final(clients)@ == old(clients)@,
        },
{
    match deleted {
        Ok(done) => if done {
            proof {
                lemma_standard_tags_valid();
            }
            Utils::send_ws(clients, "delete_one");
            Ok(String::from_str("Ok "))
        } else {
            Err(ApiError { status: 500, body: AdduserResponse { error: 2 } })
        },
        Err(_) => Err(ApiError { status: 400, body: AdduserResponse { error: 1 } }),
    }
}

/// The delete-all-tasks endpoint: on a successful delete, every registered
/// connection is notified with the `delete_all` tag; otherwise the registry
/// is untouched and the error is exact.
pub fn delete_tareas_by_id_user(
    deleted: Result<bool, DbError>,
    clients: &mut ConnectionRegistry,
) -> (r: Result<String, ApiError>)
    requires
        old(clients).wf(),
    ensures
        final(clients).wf(),
        match deleted {
            Ok(done) => if done {
                (r matches Ok(s) && s@ == "Ok "@) && notified(
                    old(clients)@,
                    final(clients)@,
                    "delete_all"@,
                )
            } else {
                r == Err::<String, ApiError>(
                    ApiError { status: 500, body: AdduserResponse { error: 2 } },
                ) && final(clients)@ == old(clients)@
            },
            Err(_) => r == Err::<String, ApiError>(
                ApiError { status: 400, body: AdduserResponse { error: 1 } },
            ) && final(clients)@ == old(clients)@,
        },
{
    match deleted {
        Ok(done) => if done {
            proof {
                lemma_standard_tags_valid();
            }
            Utils::send_ws(clients, "delete_all");
            Ok(String::from_str("Ok "))
        } else {
            Err(ApiError { status: 500, body: AdduserResponse { error: 2 } })
        },
        Err(_) => Err(ApiError { status: 400, body: AdduserResponse { error: 1 } }),
    }
}

/// Whether registration may proceed after the username lookup.
pub enum RegistrationStep {
    /// No user holds the username: the insert may go ahead.
    Proceed,
    /// The username is taken, or the lookup failed: answer this error.
    Refused(ApiError),
}

/// The registration endpoint's first decision: proceed only when no stored
/// user holds the requested username.
pub fn add_usuario(lookup: Result<Vec<Usuarios>, DbError>) -> (r: RegistrationStep)
    ensures
        match lookup {
            Ok(us) => if us@.len() == 0 {
                r is Proceed
            } else {
                r == RegistrationStep::Refused(
                    ApiError { status: 409, body: AdduserResponse { error: 1 } },
                )
            },
            Err(_) => r == RegistrationStep::Refused(
                ApiError { status: 500, body: AdduserResponse { error: 2 } },
            ),
        },
{
    match lookup {
        Ok(us) => if us.len() == 0 {
            RegistrationStep::Proceed
        } else {
            RegistrationStep::Refused(ApiError { status: 409, body: AdduserResponse { error: 1 } })
        },
        Err(_) => RegistrationStep::Refused(
            ApiError { status: 500, body: AdduserResponse { error: 2 } },
        ),
    }
}

/// The registration endpoint's final decision: a success body once the
/// insert went through, a server error when it failed.
pub fn add_usuario_result(added: Result<bool, DbError>) -> (r: Result<AdduserResponse, ApiError>)
    ensures
        match added {
            Ok(_) => r == Ok::<AdduserResponse, ApiError>(AdduserResponse { error: 0 }),
            Err(_) => r == Err::<AdduserResponse, ApiError>(
                ApiError { status: 500, body: AdduserResponse { error: 1 } },
            ),
        },
{
    match added {
        Ok(_) => Ok(AdduserResponse { error: 0 }),
        Err(_) => Err(ApiError { status: 500, body: AdduserResponse { error: 1 } }),
    }
}

/// The login endpoint: succeeds only for a stored user whose password hash
/// parses and verifies against the presented password, and the issued
/// token's subject is then exactly that user's id.
pub fn login(user: &UsuariosHttp, lookup: Result<Vec<Usuarios>, DbError>) -> (r: Result<
    String,
    ApiError,
>)
    ensures
        match lookup {
            Ok(us) => if us@.len() == 0 {
                r == Err::<String, ApiError>(
                    ApiError { status: 400, body: AdduserResponse { error: 3 } },
                )
            } else {
                (r matches Ok(t) ==> phc_parses(us@[0].password@) && argon2d_verifies(
                    user.password@,
                    us@[0].password@,
                ) && jwt_sub_of(t@) == us@[0].id@) && (r matches Err(e) ==> e == ApiError {
                    status: 500,
                    body: AdduserResponse { error: 2 },
                })
            },
            Err(_) => r == Err::<String, ApiError>(
                ApiError { status: 500, body: AdduserResponse { error: 4 } },
            ),
        },
{
    if !user.validate() {
        return Err(ApiError { status: 400, body: AdduserResponse { error: 1 } });
    }
    match lookup {
        Ok(us) => {
            if us.len() == 0 {
                return Err(ApiError { status: 400, body: AdduserResponse { error: 3 } });
            }
            let stored = &us[0];
            let pass_ok = match Utils::verify_password_argon2d(
                user.password.as_str(),
                stored.password.as_str(),
            ) {
                Ok(b) => b,
                Err(_) => false,
            };
            if !pass_ok {
                return Err(ApiError { status: 500, body: AdduserResponse { error: 2 } });
            }
            match Utils::make_jwt(stored.username.as_str(), stored.id.as_str()) {
                Ok(token) => Ok(token),
                Err(_) => Err(ApiError { status: 500, body: AdduserResponse { error: 2 } }),
            }
        },
        Err(_) => Err(ApiError { status: 500, body: AdduserResponse { error: 4 } }),
    }
}

} // verus!
