use vstd::prelude::*;

verus! {

/// A backend that owns one connection and lends it to one caller at a time.
/// The connection is absent when an earlier use never handed it back.
pub struct Backend<C> {
    pub conn: Option<C>,
}

impl<C> Backend<C> {
    /// A backend that holds `conn`.
    pub fn new(conn: C) -> (b: Self)
        ensures
            b.conn == Some(conn),
    {
        Backend { conn: Some(conn) }
    }
}

/// Runs `f` with exclusive use of the backend's connection. `f` gets the
/// connection and gives it back together with its result; the backend then
/// holds the connection that `f` gave back, and the result is returned.
pub fn with_connection<C, R, F: FnOnce(C) -> (C, R)>(data: &mut Backend<C>, f: F) -> (r: R)
    requires
        old(data).conn is Some,
        f.requires((old(data).conn->0,)),
    ensures
        final(data).conn is Some,
        f.ensures((old(data).conn->0,), (final(data).conn->0, r)),
{
    let conn = data.conn.take().unwrap();
    let (conn, r) = f(conn);
    data.conn = Some(conn);
    r
}

} // verus!
