//! The status page: the certificates in the vault, each with its expiry and
//! a button to delete it.

use vstd::prelude::*;
use vstd::string::StringExecFns;

verus! {

/// A certificate on the status page: its identifier, its expiry as the page
/// shows it, and its name.
pub struct StatusRow {
    pub id: String,
    pub expiry: String,
    pub name: String,
}

/// What stands on the page before the rows.
pub open spec fn page_start() -> Seq<char> {
    "<html>"@
        + "<head><meta charset='utf-8'><meta name='viewport' content='width=device-width, initial-scale=1'>"@
        + "<link href='https://cdn.larsen.farm/bootstrap/5.3/css/bootstrap.min.css' rel='stylesheet'>"@
        + "<title>Let's Encrypt Dashboard</title>"@ + "</head>"@ + "<body class='container'>"@
        + "<form method='post' action='/register'><label for='domain' class='form-label'>Add New Domain:</label><br><input class='form-control' type='text' id='domain' name='domain'><button type='submit' class='btn btn-primary'>Submit</button></form>"@
        + "<table class='table'><tr><th>Certificate Id</th><th>Expiry</th><th>Action</th></tr>"@
}

/// What stands on the page behind the rows.
pub open spec fn page_end() -> Seq<char> {
    "</table>"@ + "</body>"@ + "</html>"@
}

/// The row of one certificate.
pub open spec fn row_text(row: StatusRow) -> Seq<char> {
    "<tr><td>"@ + row.id@ + "</td><td>"@ + row.expiry@ + "</td><td>"@
        + "<form method='post' action='/delete'><input type='hidden' name='cert_name' value='"@
        + row.name@ + "'><button type='submit' class='btn btn-primary'>Delete</button></form>"@
        + "</tr>"@
}

/// The rows of the first `count` certificates, one behind the other.
pub open spec fn rows_text(rows: Seq<StatusRow>, count: int) -> Seq<char>
    decreases count,
{
    if count <= 0 {
        Seq::empty()
    } else {
        rows_text(rows, count - 1) + row_text(rows[count - 1])
    }
}

/// The status page.
pub open spec fn page_text(rows: Seq<StatusRow>) -> Seq<char> {
    page_start() + rows_text(rows, rows.len() as int) + page_end()
}

/// Writes the status page for the certificates `rows`.
pub fn run(rows: &Vec<StatusRow>) -> (page: String)
    ensures
        page@ == page_text(rows@),
{
    let mut page = String::new();
    page.append("<html>");
    page.append(
        "<head><meta charset='utf-8'><meta name='viewport' content='width=device-width, initial-scale=1'>",
    );
    page.append(
        "<link href='https://cdn.larsen.farm/bootstrap/5.3/css/bootstrap.min.css' rel='stylesheet'>",
    );
    page.append("<title>Let's Encrypt Dashboard</title>");
    page.append("</head>");
    page.append("<body class='container'>");
    page.append(
        "<form method='post' action='/register'><label for='domain' class='form-label'>Add New Domain:</label><br><input class='form-control' type='text' id='domain' name='domain'><button type='submit' class='btn btn-primary'>Submit</button></form>",
    );
    page.append(
        "<table class='table'><tr><th>Certificate Id</th><th>Expiry</th><th>Action</th></tr>",
    );
    let mut i: usize = 0;
    while i < rows.len()
        invariant
            i <= rows@.len(),
            page@ == page_start() + rows_text(rows@, i as int),
        decreases rows@.len() - i,
    {
        let row = &rows[i];
        page.append("<tr><td>");
        page.append(row.id.as_str());
        page.append("</td><td>");
        page.append(row.expiry.as_str());
        page.append("</td><td>");
        page.append(
            "<form method='post' action='/delete'><input type='hidden' name='cert_name' value='",
        );
        page.append(row.name.as_str());
        page.append("'><button type='submit' class='btn btn-primary'>Delete</button></form>");
        page.append("</tr>");
        i = i + 1;
    }
    page.append("</table>");
    page.append("</body>");
    page.append("</html>");
    page
}

} // verus!
