# skill_workshop

The domain model of a workshop platform, written in Verus: value objects
(ids, email, money, OTP codes, transaction ids), aggregates with their status
machines (users, categories, levels, workshops, enrollments, payments,
refunds, reviews, contact messages), domain events and errors, the reading
of stored rows back into aggregates, and the pure parts of the SSLCommerz
payment gateway adapter (endpoints, request fields, response mapping and the
SHA-512 check of payment notifications).

Layout:

- `src/` — the verified library. Every function carries a contract; the
  laws of the status machines, of seat accounting and of money arithmetic
  stand as public proof functions beside the code they are about.
- `tests/` — tests of the library on concrete values.
- `app/` — ordinary Rust around the library: the domain interfaces as async traits and
  their implementations over PostgreSQL (sqlx), SSLCommerz (reqwest), SMTP
  (lettre and tera), a job queue and PDF invoices (printpdf). The object
  store is declared as an interface only: the S3 client crates are not among
  this crate's dependencies; the address of an uploaded object is
  `storage::object_url`.

Panics: the library's own code does not panic, with one exception that no
input can rule out. Creating a fresh id (`*Id::new`, `Default`, and the
aggregate constructors that call them) goes through `uuid::Uuid::now_v7`,
which panics when the system clock reads before 1970 or when the operating
system cannot supply random bytes. The clock reading for timestamps does not
panic: a clock before 1970 gives a negative `Timestamp`.
