# ui — tabs and tab bars

A verified model of a tab component and a tab bar component.

- `src/tab.rs`: a tab's builder state, the one-pixel borders and paddings it
  is drawn with in a single row or in wrapped rows, the order of its two
  slots, and the laws these decisions keep (constant tab size, one border per
  seam between neighbours, continuous row separators).
- `src/tab_bar.rs`: a tab bar's builder state and layout (which groups of
  children are shown, scroll tracking, bounds reporting), with its laws.
- `src/children.rs`: the small-vector child lists, keyed by `u64`.
- `app/`: the gpui elements that keep the child elements by key and turn the
  library's decisions into element trees.
