//! Batch provisioning of user accounts held in a CSV table: every record
//! keeps its email, username and displayed name, gets a fresh random
//! password and the default role, and the table is written back in the
//! same order.

pub mod laws;
pub mod password;
pub mod record;
pub mod role;
pub mod table;
pub mod text;

pub use password::{get_default, random_password, PASSWORD_LEN};
pub use record::{ProvisionError, Record};
pub use role::{Role, RoleEncoding};
pub use table::{records_from_rows, row_of_record, rows_from_records};
pub use text::{parse_records, provision, render_records};
