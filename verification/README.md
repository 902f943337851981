# Balans

Bookkeeping for small Swedish companies: double-entry vouchers on the BAS
chart of accounts, SIE import and export, K2 closing, eligibility and
reports, INK2/SRU tax data, fixed-asset depreciation and annual-report
filing with iXBRL.

The library in `src/` is written in Verus. Every function there carries a
contract (`requires` / `ensures`) over a mathematical model of its data, and
Verus proves the code against it. Laws that span several functions stand as
public proof functions, for example:

- `sie::roundtrip::lemma_write_then_read`: the text the SIE writer makes of a
  file, read back by the parser, gives the same file;
- `k2::closing`: the closing vouchers balance and leave the income statement
  at zero;
- `voucher_checks`: an accepted voucher balances;
- `sie::encoding::lemma_latin1_roundtrip`: Latin-1 text survives encoding.

Calls into outside crates (`rust_decimal`, `chrono`, `uuid`, `sha2`, `hex`,
`bcrypt`) go through small trusted wrappers whose doc comments say what is
assumed of them.

## Layout

- `src/` the verified library: text and money, dates, SIE (lexing, parsing,
  writing, import planning), ledger and voucher rules, K2 closing,
  eligibility and validation, reports and the PDF layout plan, tax, assets,
  filing, users and access.
- `tests/` tests of the library.
- `app/` the HTTP server around it (axum, SQLite through sqlx, JWT, PDF
  rendering with genpdf, the filing service client): it reads and writes,
  and hands plain values to the library.
