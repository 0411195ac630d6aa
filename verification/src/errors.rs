//! The errors that requests can end in, the HTTP status that each is
//! answered with, and how it is answered.

use vstd::prelude::*;

verus! {

/// What went wrong with the database.
#[derive(Debug)]
pub enum DatabaseError {
    /// The query that should have returned a row returned none.
    RowNotFound,
    /// Any other failure, with its description.
    Other(String),
}

/// The errors a request can end in.
#[derive(Debug)]
pub enum AppError {
    NotAuthenticated,
    InvalidSession,
    InvalidCredentials,
    NotFound,
    NotAllowed,
    /// Applying the database migrations failed (with the description).
    DatabaseMigration(String),
    Database(DatabaseError),
    /// Hashing or checking a password failed.
    Hashing,
    /// The logger could not be set up (with the description).
    Logging(String),
    /// The HTTP server failed (with the description).
    Http(String),
}

/// How an error is answered.
#[derive(Debug)]
pub enum ErrorResponse {
    /// A redirection to this location.
    Redirect(String),
    /// An error page with this HTTP status.
    Page(u16),
}

/// The message shown for each error.
pub open spec fn message_text(e: AppError) -> Seq<char> {
    match e {
        AppError::NotAuthenticated => "Você não está autenticado, faça login"@,
        AppError::InvalidSession => "Sua sessão expirou, faça login novamente"@,
        AppError::InvalidCredentials => "Credenciais inválidas, tente novamente"@,
        AppError::NotFound => "Página ou recuso não encontrado"@,
        AppError::NotAllowed => "Você não pode fazer essa ação"@,
        AppError::DatabaseMigration(_) => "Erro ao migrar base de dados"@,
        AppError::Database(_) => "Erro na base de dados"@,
        AppError::Hashing => "Erro ao calcular hash"@,
        AppError::Logging(_) => "Erro ao iniciar logger"@,
        AppError::Http(_) => "Erro no servidor http"@,
    }
}

/// The HTTP status each error is answered with.
pub open spec fn status_of(e: AppError) -> u16 {
    match e {
        AppError::NotAuthenticated => 401,
        AppError::InvalidSession => 401,
        AppError::InvalidCredentials => 401,
        AppError::NotFound => 404,
        AppError::NotAllowed => 403,
        AppError::Database(DatabaseError::RowNotFound) => 404,
        _ => 500,
    }
}

/// Whether the error means that the visitor has to log in (again).
pub open spec fn asks_for_login(e: AppError) -> bool {
    e is NotAuthenticated || e is InvalidSession
}

impl AppError {
    /// The message shown for the error.
    pub fn message(&self) -> (r: String)
        ensures
            r@ == message_text(*self),
    {
        let text: &str = match self {
            AppError::NotAuthenticated => "Você não está autenticado, faça login",
            AppError::InvalidSession => "Sua sessão expirou, faça login novamente",
            AppError::InvalidCredentials => "Credenciais inválidas, tente novamente",
            AppError::NotFound => "Página ou recuso não encontrado",
            AppError::NotAllowed => "Você não pode fazer essa ação",
            AppError::DatabaseMigration(_) => "Erro ao migrar base de dados",
            AppError::Database(_) => "Erro na base de dados",
            AppError::Hashing => "Erro ao calcular hash",
            AppError::Logging(_) => "Erro ao iniciar logger",
            AppError::Http(_) => "Erro no servidor http",
        };
        String::from_str(text)
    }

    /// The HTTP status the error is answered with.
    pub fn status_code(&self) -> (r: u16)
        ensures
            r == status_of(*self),
            (*self is NotAuthenticated || *self is InvalidSession || *self is InvalidCredentials) ==> r == 401,
            *self is NotAllowed ==> r == 403,
            (*self is NotFound || *self matches AppError::Database(DatabaseError::RowNotFound)) ==> r == 404,
    {
        match self {
            AppError::NotAuthenticated => 401,
            AppError::InvalidSession => 401,
            AppError::InvalidCredentials => 401,
            AppError::NotFound => 404,
            AppError::NotAllowed => 403,
            AppError::Database(DatabaseError::RowNotFound) => 404,
            _ => 500,
        }
    }

    /// The location that carries the error back to the page at `uri`:
    /// `uri?error=<message>`.
    pub fn redirect(&self, uri: &str) -> (r: String)
        ensures
            r@ == uri@ + "?error="@ + message_text(*self),
    {
        let mut target = String::from_str(uri);
        target.append("?error=");
        let message = self.message();
        target.append(message.as_str());
        target
    }

    /// How the error is answered: errors that ask for a login redirect to the
    /// login page with the message; every other error is shown on a page with
    /// its status.
    pub fn response(&self) -> (r: ErrorResponse)
        ensures
            asks_for_login(*self) ==> (r matches ErrorResponse::Redirect(to)
                && to@ == "/login"@ + "?error="@ + message_text(*self)),
            !asks_for_login(*self) ==> r == ErrorResponse::Page(status_of(*self)),
            (r is Redirect) <==> (*self is NotAuthenticated || *self is InvalidSession),
            *self is NotAllowed ==> r == ErrorResponse::Page(403),
            *self is InvalidCredentials ==> r == ErrorResponse::Page(401),
    {
        match self {
            AppError::NotAuthenticated | AppError::InvalidSession => ErrorResponse::Redirect(
                self.redirect("/login"),
            ),
            _ => ErrorResponse::Page(self.status_code()),
        }
    }
}

/// Only the two errors that mean "log in" send the visitor to the login
/// page; every other error is answered with a page: 401 for wrong
/// credentials, 403 for a forbidden action, 404 for what does not exist,
/// 500 for failures of the server.
pub proof fn lemma_error_answers(e: AppError)
    ensures
        asks_for_login(e) <==> (e is NotAuthenticated || e is InvalidSession),
        status_of(e) == 403 <==> e is NotAllowed,
        status_of(e) == 401 <==> (e is NotAuthenticated || e is InvalidSession || e is InvalidCredentials),
        status_of(e) == 404 <==> (e is NotFound || e matches AppError::Database(DatabaseError::RowNotFound)),
        status_of(e) == 401 || status_of(e) == 403 || status_of(e) == 404 || status_of(e) == 500,
        (e is Hashing || e is DatabaseMigration || e is Logging || e is Http
            || e matches AppError::Database(DatabaseError::Other(_))) ==> status_of(e) == 500,
{
}

} // verus!
