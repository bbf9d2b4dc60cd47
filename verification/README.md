# kont (verified)

Zero-copy views over SPL token account bytes and fixed-layout builders of SPL
token instructions, with their behaviour stated and proved in Verus.

- `src/encoding.rs`: little-endian integers (`le_value`, `le_bytes`), field
  overwrites (`splice`), their laws, and the byte-copying helpers.
- `src/views/`: `TokenAccountView` (legacy 165-byte accounts) and
  `Token2022AccountView` (TLV extension lookup), specified over the account bytes.
- `src/templates/`: `MintTo`, `Burn`, `Transfer` and `TransferChecked` builders,
  specified over their buffers, and the `KontInstruction`s they produce.
- `tests/`: scenario tests and tests of the laws on concrete values.
