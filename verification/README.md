# folium

A macOS PDF viewer with tabs, search, highlights and notes. The crate is in
two parts:

- `src/` — the verified library (Verus): the PDF view's state (find results
  and cursor, active and edited annotation, tooltip), the file watch that
  reloads a changed document, the tab list, the menu bar, the layout of the
  floating pills, the tab bar's titlebar constraints, and the texts shown to
  the user. `src/laws.rs` holds the properties proved across operations.
- `app/` — the AppKit/PDFKit front end (`objc2` crates, libdispatch,
  pdfium): it builds the views, performs the I/O and hands plain values to
  the library. It builds for macOS only.
