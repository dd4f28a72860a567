# ledger_rdf

Exports the ledger of a knowledge base as RDF, in Turtle or JSON-LD. The reader is somebody with a
triple store who asks what a conclusion rests on, so an export holds intervals and provenance, and
what was retracted, besides the edges that hold now.

* Every fact is a reified statement with its times, its confidence and its evidence. A fact that
  still holds is an edge as well; one that ended or was retracted, or was derived, is not.
* Classes and relations keep the IRIs that they were imported with. Everything else is named under
  a URN of its knowledge base, or under a base that the publisher gives.
* A reference that leaves the knowledge base, or that points at a row that is not exported, is
  neither written nor left out: the export is refused.

`src/` is the library, verified with Verus: names and literals, the emitters, the checks on pages of
rows, and in the `laws_*` modules what holds of an export as a whole. Emitters state what they write
as a list of steps (`steps`), and a finished file reads back as the triples that were written
(`read`). Texts of times, JSON, identifiers and the RDF syntax itself come from chrono, serde_json,
uuid, oxrdf and oxrdfio, behind functions whose contracts are trusted. `app/` reads the rows out of a
PostgreSQL database. `tests/` reads exports back with a parser and compares them with
what the rows say.
