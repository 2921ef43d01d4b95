//! Lists of columns and of orders written as tuples of up to twelve members.
//! A list renders its members in order, separated by a comma and a blank. A
//! longer list is written as a tuple of tuples or, where its members are of one
//! type, as a vector.

use vstd::prelude::*;
use super::alias::{AliasPrefixes, Prefixes, SourceAliasName};
use super::columns::{ColumnList, Record};
use super::render::{build_after, note_part, BuildSql, BuildSqlError, Rendered};
use super::text::{lemma_marks_concat, lemma_plain_marks};
use super::types::{
    Aggregation, BoolMono, Columns, Expression, Orders, Polynomial, SqlTypeTag, TypeTag,
};
use super::value::{Value, ValueView};

verus! {

impl<A: TypeTag> TypeTag for (A,) {
    open spec fn type_tag() -> SqlTypeTag {
        SqlTypeTag::Row(seq![A::type_tag()])
    }
}

impl<A> Columns for (A,) where A: Expression {
    type SqlType = (A::SqlType,);

    type Aggregation = A::Aggregation;
}

impl<A: Expression> Expression for Record<(A,)> {
    type SqlType = A::SqlType;

    type Term = A::Term;

    type BoolOperation = A::BoolOperation;

    type Aggregation = A::Aggregation;
}

impl<A> Orders for (A,) where A: Orders {
}

impl<A> BuildSql for (A,) where A: BuildSql {
    open spec fn sql_text(&self, prefixes: Prefixes) -> Seq<char> {
        self.0.sql_text(prefixes)
    }

    open spec fn sql_params(&self) -> Seq<ValueView> {
        self.0.sql_params()
    }

    open spec fn alias_names(&self) -> Seq<SourceAliasName> {
        self.0.alias_names()
    }

    open spec fn plain_names(&self) -> bool {
        self.0.plain_names()
    }

    open spec fn infallible(&self) -> bool {
        self.0.infallible()
    }

    proof fn lemma_marks(&self, prefixes: Prefixes) {
        self.0.lemma_marks(prefixes);
    }

    fn note_names(&self, prefixes: &mut AliasPrefixes) {
        self.0.note_names(prefixes);
    }

    fn build_sql_in(
        &self,
        prefixes: &AliasPrefixes,
        buf: &mut Vec<u8>,
        params: &mut Vec<Value>,
    ) -> (r: Result<(), BuildSqlError>) {
        self.0.build_sql_in(prefixes, buf, params)
    }
}

impl<A, B> TypeTag for (A, B) where
    A: TypeTag,
    B: TypeTag,
 {
    open spec fn type_tag() -> SqlTypeTag {
        SqlTypeTag::Row(seq![A::type_tag(), B::type_tag()])
    }
}

impl<A, B> ColumnList for (A, B) {
}

impl<A, B> Columns for (A, B) where
    A: Columns,
    B: Columns,
    A::Aggregation: Aggregation<(B::Aggregation, ())>,
 {
    type SqlType = (A::SqlType, B::SqlType);

    type Aggregation = <A::Aggregation as Aggregation<(B::Aggregation, ())>>::Output;
}

impl<A, B> Expression for Record<
    (A, B),
> where
    A: Expression,
    B: Expression,
    A::Aggregation: Aggregation<(B::Aggregation, ())>,
 {
    type SqlType = (A::SqlType, B::SqlType);

    type Term = Polynomial;

    type BoolOperation = BoolMono;

    type Aggregation = <A::Aggregation as Aggregation<(B::Aggregation, ())>>::Output;
}

impl<A, B> Orders for (A, B) where
    A: Orders,
    B: Orders,
 {
}

impl<A, B> BuildSql for (A, B) where
    A: BuildSql,
    B: BuildSql,
 {
    open spec fn sql_text(&self, prefixes: Prefixes) -> Seq<char> {
        self.0.sql_text(prefixes)
            + ", "@ + self.1.sql_text(prefixes)
    }

    open spec fn sql_params(&self) -> Seq<ValueView> {
        self.0.sql_params()
            + self.1.sql_params()
    }

    open spec fn alias_names(&self) -> Seq<SourceAliasName> {
        self.0.alias_names() + self.1.alias_names()
    }

    open spec fn plain_names(&self) -> bool {
        self.0.plain_names() && self.1.plain_names()
    }

    open spec fn infallible(&self) -> bool {
        self.0.infallible()
            && self.1.infallible()
    }

    proof fn lemma_marks(&self, prefixes: Prefixes) {
        let t0 = self.0.sql_text(prefixes);
        self.0.lemma_marks(prefixes);
        let t1 = ", "@;
        reveal_strlit(", ");
        lemma_plain_marks(", "@);
        lemma_marks_concat(t0, self.0.sql_params().len() as int, t1, 0);
        let a1 = t0 + t1;
        let n1: int = self.0.sql_params().len() as int + 0;
        let t2 = self.1.sql_text(prefixes);
        self.1.lemma_marks(prefixes);
        lemma_marks_concat(a1, n1, t2, self.1.sql_params().len() as int);
    }

    fn note_names(&self, prefixes: &mut AliasPrefixes) {
        let ghost start = prefixes@;
        self.0.note_names(prefixes);
        let ghost mut done = self.0.alias_names();
        note_part(&self.1, prefixes, Ghost(start), Ghost(done));
    }

    fn build_sql_in(
        &self,
        prefixes: &AliasPrefixes,
        buf: &mut Vec<u8>,
        params: &mut Vec<Value>,
    ) -> (r: Result<(), BuildSqlError>) {
        let ghost base = buf@;
        let ghost bound = params.deep_view();
        self.0.build_sql_in(prefixes, buf, params)?;
        let ghost mut text = self.0.sql_text(prefixes@);
        let ghost mut values = self.0.sql_params();
        let run = Ghost(Rendered { base, text, bound, values });
        build_after(", ", &self.1, prefixes, buf, params, run)?;
        Ok(())
    }
}

impl<A, B, C> TypeTag for (A, B, C) where
    A: TypeTag,
    B: TypeTag,
    C: TypeTag,
 {
    open spec fn type_tag() -> SqlTypeTag {
        SqlTypeTag::Row(seq![A::type_tag(), B::type_tag(), C::type_tag()])
    }
}

impl<A, B, C> ColumnList for (A, B, C) {
}

impl<A, B, C> Columns for (A, B, C) where
    A: Columns,
    B: Columns,
    C: Columns,
    A::Aggregation: Aggregation<(B::Aggregation, (C::Aggregation, ()))>,
 {
    type SqlType = (A::SqlType, B::SqlType, C::SqlType);

    type Aggregation = <A::Aggregation as Aggregation<(B::Aggregation, (C::Aggregation,
                           ()))>>::Output;
}

impl<A, B, C> Expression for Record<
    (A, B, C),
> where
    A: Expression,
    B: Expression,
    C: Expression,
    A::Aggregation: Aggregation<(B::Aggregation, (C::Aggregation, ()))>,
 {
    type SqlType = (A::SqlType, B::SqlType, C::SqlType);

    type Term = Polynomial;

    type BoolOperation = BoolMono;

    type Aggregation = <A::Aggregation as Aggregation<(B::Aggregation, (C::Aggregation,
                           ()))>>::Output;
}

impl<A, B, C> Orders for (A, B, C) where
    A: Orders,
    B: Orders,
    C: Orders,
 {
}

impl<A, B, C> BuildSql for (A, B, C) where
    A: BuildSql,
    B: BuildSql,
    C: BuildSql,
 {
    open spec fn sql_text(&self, prefixes: Prefixes) -> Seq<char> {
        self.0.sql_text(prefixes)
            + ", "@ + self.1.sql_text(prefixes)
            + ", "@ + self.2.sql_text(prefixes)
    }

    open spec fn sql_params(&self) -> Seq<ValueView> {
        self.0.sql_params()
            + self.1.sql_params()
            + self.2.sql_params()
    }

    open spec fn alias_names(&self) -> Seq<SourceAliasName> {
        self.0.alias_names() + self.1.alias_names() + self.2.alias_names()
    }

    open spec fn plain_names(&self) -> bool {
        self.0.plain_names() && self.1.plain_names() && self.2.plain_names()
    }

    open spec fn infallible(&self) -> bool {
        self.0.infallible()
            && self.1.infallible()
            && self.2.infallible()
    }

    proof fn lemma_marks(&self, prefixes: Prefixes) {
        let t0 = self.0.sql_text(prefixes);
        self.0.lemma_marks(prefixes);
        let t1 = ", "@;
        reveal_strlit(", ");
        lemma_plain_marks(", "@);
        lemma_marks_concat(t0, self.0.sql_params().len() as int, t1, 0);
        let a1 = t0 + t1;
        let n1: int = self.0.sql_params().len() as int + 0;
        let t2 = self.1.sql_text(prefixes);
        self.1.lemma_marks(prefixes);
        lemma_marks_concat(a1, n1, t2, self.1.sql_params().len() as int);
        let a2 = a1 + t2;
        let n2: int = n1 + self.1.sql_params().len() as int;
        let t3 = ", "@;
        reveal_strlit(", ");
        lemma_plain_marks(", "@);
        lemma_marks_concat(a2, n2, t3, 0);
        let a3 = a2 + t3;
        let n3: int = n2 + 0;
        let t4 = self.2.sql_text(prefixes);
        self.2.lemma_marks(prefixes);
        lemma_marks_concat(a3, n3, t4, self.2.sql_params().len() as int);
    }

    fn note_names(&self, prefixes: &mut AliasPrefixes) {
        let ghost start = prefixes@;
        self.0.note_names(prefixes);
        let ghost mut done = self.0.alias_names();
        note_part(&self.1, prefixes, Ghost(start), Ghost(done));
        proof {
            done = done + self.1.alias_names();
        }
        note_part(&self.2, prefixes, Ghost(start), Ghost(done));
    }

    fn build_sql_in(
        &self,
        prefixes: &AliasPrefixes,
        buf: &mut Vec<u8>,
        params: &mut Vec<Value>,
    ) -> (r: Result<(), BuildSqlError>) {
        let ghost base = buf@;
        let ghost bound = params.deep_view();
        self.0.build_sql_in(prefixes, buf, params)?;
        let ghost mut text = self.0.sql_text(prefixes@);
        let ghost mut values = self.0.sql_params();
        let run = Ghost(Rendered { base, text, bound, values });
        build_after(", ", &self.1, prefixes, buf, params, run)?;
        proof {
            text = text + ", "@ + self.1.sql_text(prefixes@);
            values = values + self.1.sql_params();
        }
        let run = Ghost(Rendered { base, text, bound, values });
        build_after(", ", &self.2, prefixes, buf, params, run)?;
        Ok(())
    }
}

impl<A, B, C, D> TypeTag for (A, B, C, D) where
    A: TypeTag,
    B: TypeTag,
    C: TypeTag,
    D: TypeTag,
 {
    open spec fn type_tag() -> SqlTypeTag {
        SqlTypeTag::Row(seq![A::type_tag(), B::type_tag(), C::type_tag(), D::type_tag()])
    }
}

impl<A, B, C, D> ColumnList for (A, B, C, D) {
}

impl<A, B, C, D> Columns for (A, B, C, D) where
    A: Columns,
    B: Columns,
    C: Columns,
    D: Columns,
    A::Aggregation: Aggregation<(B::Aggregation, (C::Aggregation, (D::Aggregation, ())))>,
 {
    type SqlType = (A::SqlType, B::SqlType, C::SqlType, D::SqlType);

    type Aggregation = <A::Aggregation as Aggregation<(B::Aggregation, (C::Aggregation,
                           (D::Aggregation, ())))>>::Output;
}

impl<A, B, C, D> Expression for Record<
    (A, B, C, D),
> where
    A: Expression,
    B: Expression,
    C: Expression,
    D: Expression,
    A::Aggregation: Aggregation<(B::Aggregation, (C::Aggregation, (D::Aggregation, ())))>,
 {
    type SqlType = (A::SqlType, B::SqlType, C::SqlType, D::SqlType);

    type Term = Polynomial;

    type BoolOperation = BoolMono;

    type Aggregation = <A::Aggregation as Aggregation<(B::Aggregation, (C::Aggregation,
                           (D::Aggregation, ())))>>::Output;
}

impl<A, B, C, D> Orders for (A, B, C, D) where
    A: Orders,
    B: Orders,
    C: Orders,
    D: Orders,
 {
}

impl<A, B, C, D> BuildSql for (A, B, C, D) where
    A: BuildSql,
    B: BuildSql,
    C: BuildSql,
    D: BuildSql,
 {
    open spec fn sql_text(&self, prefixes: Prefixes) -> Seq<char> {
        self.0.sql_text(prefixes)
            + ", "@ + self.1.sql_text(prefixes)
            + ", "@ + self.2.sql_text(prefixes)
            + ", "@ + self.3.sql_text(prefixes)
    }

    open spec fn sql_params(&self) -> Seq<ValueView> {
        self.0.sql_params()
            + self.1.sql_params()
            + self.2.sql_params()
            + self.3.sql_params()
    }

    open spec fn alias_names(&self) -> Seq<SourceAliasName> {
        self.0.alias_names() + self.1.alias_names() + self.2.alias_names() + self.3.alias_names()
    }

    open spec fn plain_names(&self) -> bool {
        self.0.plain_names()
            && self.1.plain_names()
            && self.2.plain_names()
            && self.3.plain_names()
    }

    open spec fn infallible(&self) -> bool {
        self.0.infallible()
            && self.1.infallible()
            && self.2.infallible()
            && self.3.infallible()
    }

    proof fn lemma_marks(&self, prefixes: Prefixes) {
        let t0 = self.0.sql_text(prefixes);
        self.0.lemma_marks(prefixes);
        let t1 = ", "@;
        reveal_strlit(", ");
        lemma_plain_marks(", "@);
        lemma_marks_concat(t0, self.0.sql_params().len() as int, t1, 0);
        let a1 = t0 + t1;
        let n1: int = self.0.sql_params().len() as int + 0;
        let t2 = self.1.sql_text(prefixes);
        self.1.lemma_marks(prefixes);
        lemma_marks_concat(a1, n1, t2, self.1.sql_params().len() as int);
        let a2 = a1 + t2;
        let n2: int = n1 + self.1.sql_params().len() as int;
        let t3 = ", "@;
        reveal_strlit(", ");
        lemma_plain_marks(", "@);
        lemma_marks_concat(a2, n2, t3, 0);
        let a3 = a2 + t3;
        let n3: int = n2 + 0;
        let t4 = self.2.sql_text(prefixes);
        self.2.lemma_marks(prefixes);
        lemma_marks_concat(a3, n3, t4, self.2.sql_params().len() as int);
        let a4 = a3 + t4;
        let n4: int = n3 + self.2.sql_params().len() as int;
        let t5 = ", "@;
        reveal_strlit(", ");
        lemma_plain_marks(", "@);
        lemma_marks_concat(a4, n4, t5, 0);
        let a5 = a4 + t5;
        let n5: int = n4 + 0;
        let t6 = self.3.sql_text(prefixes);
        self.3.lemma_marks(prefixes);
        lemma_marks_concat(a5, n5, t6, self.3.sql_params().len() as int);
    }

    fn note_names(&self, prefixes: &mut AliasPrefixes) {
        let ghost start = prefixes@;
        self.0.note_names(prefixes);
        let ghost mut done = self.0.alias_names();
        note_part(&self.1, prefixes, Ghost(start), Ghost(done));
        proof {
            done = done + self.1.alias_names();
        }
        note_part(&self.2, prefixes, Ghost(start), Ghost(done));
        proof {
            done = done + self.2.alias_names();
        }
        note_part(&self.3, prefixes, Ghost(start), Ghost(done));
    }

    fn build_sql_in(
        &self,
        prefixes: &AliasPrefixes,
        buf: &mut Vec<u8>,
        params: &mut Vec<Value>,
    ) -> (r: Result<(), BuildSqlError>) {
        let ghost base = buf@;
        let ghost bound = params.deep_view();
        self.0.build_sql_in(prefixes, buf, params)?;
        let ghost mut text = self.0.sql_text(prefixes@);
        let ghost mut values = self.0.sql_params();
        let run = Ghost(Rendered { base, text, bound, values });
        build_after(", ", &self.1, prefixes, buf, params, run)?;
        proof {
            text = text + ", "@ + self.1.sql_text(prefixes@);
            values = values + self.1.sql_params();
        }
        let run = Ghost(Rendered { base, text, bound, values });
        build_after(", ", &self.2, prefixes, buf, params, run)?;
        proof {
            text = text + ", "@ + self.2.sql_text(prefixes@);
            values = values + self.2.sql_params();
        }
        let run = Ghost(Rendered { base, text, bound, values });
        build_after(", ", &self.3, prefixes, buf, params, run)?;
        Ok(())
    }
}

impl<A, B, C, D, E> TypeTag for (A, B, C, D, E) where
    A: TypeTag,
    B: TypeTag,
    C: TypeTag,
    D: TypeTag,
    E: TypeTag,
 {
    open spec fn type_tag() -> SqlTypeTag {
        SqlTypeTag::Row(
            seq![
                A::type_tag(),
                B::type_tag(),
                C::type_tag(),
                D::type_tag(),
                E::type_tag(),
            ],
        )
    }
}

impl<A, B, C, D, E> ColumnList for (A, B, C, D, E) {
}

impl<A, B, C, D, E> Columns for (A, B, C, D, E) where
    A: Columns,
    B: Columns,
    C: Columns,
    D: Columns,
    E: Columns,
    A::Aggregation: Aggregation<(B::Aggregation, (C::Aggregation, (D::Aggregation,
        (E::Aggregation, ()))))>,
 {
    type SqlType = (A::SqlType, B::SqlType, C::SqlType, D::SqlType, E::SqlType);

    type Aggregation = <A::Aggregation as Aggregation<(B::Aggregation, (C::Aggregation,
                           (D::Aggregation, (E::Aggregation, ()))))>>::Output;
}

impl<A, B, C, D, E> Expression for Record<
    (A, B, C, D, E),
> where
    A: Expression,
    B: Expression,
    C: Expression,
    D: Expression,
    E: Expression,
    A::Aggregation: Aggregation<(B::Aggregation, (C::Aggregation, (D::Aggregation,
        (E::Aggregation, ()))))>,
 {
    type SqlType = (A::SqlType, B::SqlType, C::SqlType, D::SqlType, E::SqlType);

    type Term = Polynomial;

    type BoolOperation = BoolMono;

    type Aggregation = <A::Aggregation as Aggregation<(B::Aggregation, (C::Aggregation,
                           (D::Aggregation, (E::Aggregation, ()))))>>::Output;
}

impl<A, B, C, D, E> Orders for (A, B, C, D, E) where
    A: Orders,
    B: Orders,
    C: Orders,
    D: Orders,
    E: Orders,
 {
}

impl<A, B, C, D, E> BuildSql for (A, B, C, D, E) where
    A: BuildSql,
    B: BuildSql,
    C: BuildSql,
    D: BuildSql,
    E: BuildSql,
 {
    open spec fn sql_text(&self, prefixes: Prefixes) -> Seq<char> {
        self.0.sql_text(prefixes)
            + ", "@ + self.1.sql_text(prefixes)
            + ", "@ + self.2.sql_text(prefixes)
            + ", "@ + self.3.sql_text(prefixes)
            + ", "@ + self.4.sql_text(prefixes)
    }

    open spec fn sql_params(&self) -> Seq<ValueView> {
        self.0.sql_params()
            + self.1.sql_params()
            + self.2.sql_params()
            + self.3.sql_params()
            + self.4.sql_params()
    }

    open spec fn alias_names(&self) -> Seq<SourceAliasName> {
        self.0.alias_names()
            + self.1.alias_names()
            + self.2.alias_names()
            + self.3.alias_names()
            + self.4.alias_names()
    }

    open spec fn plain_names(&self) -> bool {
        self.0.plain_names()
            && self.1.plain_names()
            && self.2.plain_names()
            && self.3.plain_names()
            && self.4.plain_names()
    }

    open spec fn infallible(&self) -> bool {
        self.0.infallible()
            && self.1.infallible()
            && self.2.infallible()
            && self.3.infallible()
            && self.4.infallible()
    }

    proof fn lemma_marks(&self, prefixes: Prefixes) {
        let t0 = self.0.sql_text(prefixes);
        self.0.lemma_marks(prefixes);
        let t1 = ", "@;
        reveal_strlit(", ");
        lemma_plain_marks(", "@);
        lemma_marks_concat(t0, self.0.sql_params().len() as int, t1, 0);
        let a1 = t0 + t1;
        let n1: int = self.0.sql_params().len() as int + 0;
        let t2 = self.1.sql_text(prefixes);
        self.1.lemma_marks(prefixes);
        lemma_marks_concat(a1, n1, t2, self.1.sql_params().len() as int);
        let a2 = a1 + t2;
        let n2: int = n1 + self.1.sql_params().len() as int;
        let t3 = ", "@;
        reveal_strlit(", ");
        lemma_plain_marks(", "@);
        lemma_marks_concat(a2, n2, t3, 0);
        let a3 = a2 + t3;
        let n3: int = n2 + 0;
        let t4 = self.2.sql_text(prefixes);
        self.2.lemma_marks(prefixes);
        lemma_marks_concat(a3, n3, t4, self.2.sql_params().len() as int);
        let a4 = a3 + t4;
        let n4: int = n3 + self.2.sql_params().len() as int;
        let t5 = ", "@;
        reveal_strlit(", ");
        lemma_plain_marks(", "@);
        lemma_marks_concat(a4, n4, t5, 0);
        let a5 = a4 + t5;
        let n5: int = n4 + 0;
        let t6 = self.3.sql_text(prefixes);
        self.3.lemma_marks(prefixes);
        lemma_marks_concat(a5, n5, t6, self.3.sql_params().len() as int);
        let a6 = a5 + t6;
        let n6: int = n5 + self.3.sql_params().len() as int;
        let t7 = ", "@;
        reveal_strlit(", ");
        lemma_plain_marks(", "@);
        lemma_marks_concat(a6, n6, t7, 0);
        let a7 = a6 + t7;
        let n7: int = n6 + 0;
        let t8 = self.4.sql_text(prefixes);
        self.4.lemma_marks(prefixes);
        lemma_marks_concat(a7, n7, t8, self.4.sql_params().len() as int);
    }

    fn note_names(&self, prefixes: &mut AliasPrefixes) {
        let ghost start = prefixes@;
        self.0.note_names(prefixes);
        let ghost mut done = self.0.alias_names();
        note_part(&self.1, prefixes, Ghost(start), Ghost(done));
        proof {
            done = done + self.1.alias_names();
        }
        note_part(&self.2, prefixes, Ghost(start), Ghost(done));
        proof {
            done = done + self.2.alias_names();
        }
        note_part(&self.3, prefixes, Ghost(start), Ghost(done));
        proof {
            done = done + self.3.alias_names();
        }
        note_part(&self.4, prefixes, Ghost(start), Ghost(done));
    }

    fn build_sql_in(
        &self,
        prefixes: &AliasPrefixes,
        buf: &mut Vec<u8>,
        params: &mut Vec<Value>,
    ) -> (r: Result<(), BuildSqlError>) {
        let ghost base = buf@;
        let ghost bound = params.deep_view();
        self.0.build_sql_in(prefixes, buf, params)?;
        let ghost mut text = self.0.sql_text(prefixes@);
        let ghost mut values = self.0.sql_params();
        let run = Ghost(Rendered { base, text, bound, values });
        build_after(", ", &self.1, prefixes, buf, params, run)?;
        proof {
            text = text + ", "@ + self.1.sql_text(prefixes@);
            values = values + self.1.sql_params();
        }
        let run = Ghost(Rendered { base, text, bound, values });
        build_after(", ", &self.2, prefixes, buf, params, run)?;
        proof {
            text = text + ", "@ + self.2.sql_text(prefixes@);
            values = values + self.2.sql_params();
        }
        let run = Ghost(Rendered { base, text, bound, values });
        build_after(", ", &self.3, prefixes, buf, params, run)?;
        proof {
            text = text + ", "@ + self.3.sql_text(prefixes@);
            values = values + self.3.sql_params();
        }
        let run = Ghost(Rendered { base, text, bound, values });
        build_after(", ", &self.4, prefixes, buf, params, run)?;
        Ok(())
    }
}

impl<A, B, C, D, E, F> TypeTag for (A, B, C, D, E, F) where
    A: TypeTag,
    B: TypeTag,
    C: TypeTag,
    D: TypeTag,
    E: TypeTag,
    F: TypeTag,
 {
    open spec fn type_tag() -> SqlTypeTag {
        SqlTypeTag::Row(
            seq![
                A::type_tag(),
                B::type_tag(),
                C::type_tag(),
                D::type_tag(),
                E::type_tag(),
                F::type_tag(),
            ],
        )
    }
}

impl<A, B, C, D, E, F> ColumnList for (A, B, C, D, E, F) {
}

impl<A, B, C, D, E, F> Columns for (A, B, C, D, E, F) where
    A: Columns,
    B: Columns,
    C: Columns,
    D: Columns,
    E: Columns,
    F: Columns,
    A::Aggregation: Aggregation<(B::Aggregation, (C::Aggregation, (D::Aggregation,
        (E::Aggregation, (F::Aggregation, ())))))>,
 {
    type SqlType = (A::SqlType, B::SqlType, C::SqlType, D::SqlType, E::SqlType, F::SqlType);

    type Aggregation = <A::Aggregation as Aggregation<(B::Aggregation, (C::Aggregation,
                           (D::Aggregation, (E::Aggregation, (F::Aggregation, ())))))>>::Output;
}

impl<A, B, C, D, E, F> Expression for Record<
    (A, B, C, D, E, F),
> where
    A: Expression,
    B: Expression,
    C: Expression,
    D: Expression,
    E: Expression,
    F: Expression,
    A::Aggregation: Aggregation<(B::Aggregation, (C::Aggregation, (D::Aggregation,
        (E::Aggregation, (F::Aggregation, ())))))>,
 {
    type SqlType = (A::SqlType, B::SqlType, C::SqlType, D::SqlType, E::SqlType, F::SqlType);

    type Term = Polynomial;

    type BoolOperation = BoolMono;

    type Aggregation = <A::Aggregation as Aggregation<(B::Aggregation, (C::Aggregation,
                           (D::Aggregation, (E::Aggregation, (F::Aggregation, ())))))>>::Output;
}

impl<A, B, C, D, E, F> Orders for (A, B, C, D, E, F) where
    A: Orders,
    B: Orders,
    C: Orders,
    D: Orders,
    E: Orders,
    F: Orders,
 {
}

impl<A, B, C, D, E, F> BuildSql for (A, B, C, D, E, F) where
    A: BuildSql,
    B: BuildSql,
    C: BuildSql,
    D: BuildSql,
    E: BuildSql,
    F: BuildSql,
 {
    open spec fn sql_text(&self, prefixes: Prefixes) -> Seq<char> {
        self.0.sql_text(prefixes)
            + ", "@ + self.1.sql_text(prefixes)
            + ", "@ + self.2.sql_text(prefixes)
            + ", "@ + self.3.sql_text(prefixes)
            + ", "@ + self.4.sql_text(prefixes)
            + ", "@ + self.5.sql_text(prefixes)
    }

    open spec fn sql_params(&self) -> Seq<ValueView> {
        self.0.sql_params()
            + self.1.sql_params()
            + self.2.sql_params()
            + self.3.sql_params()
            + self.4.sql_params()
            + self.5.sql_params()
    }

    open spec fn alias_names(&self) -> Seq<SourceAliasName> {
        self.0.alias_names()
            + self.1.alias_names()
            + self.2.alias_names()
            + self.3.alias_names()
            + self.4.alias_names()
            + self.5.alias_names()
    }

    open spec fn plain_names(&self) -> bool {
        self.0.plain_names()
            && self.1.plain_names()
            && self.2.plain_names()
            && self.3.plain_names()
            && self.4.plain_names()
            && self.5.plain_names()
    }

    open spec fn infallible(&self) -> bool {
        self.0.infallible()
            && self.1.infallible()
            && self.2.infallible()
            && self.3.infallible()
            && self.4.infallible()
            && self.5.infallible()
    }

    proof fn lemma_marks(&self, prefixes: Prefixes) {
        let t0 = self.0.sql_text(prefixes);
        self.0.lemma_marks(prefixes);
        let t1 = ", "@;
        reveal_strlit(", ");
        lemma_plain_marks(", "@);
        lemma_marks_concat(t0, self.0.sql_params().len() as int, t1, 0);
        let a1 = t0 + t1;
        let n1: int = self.0.sql_params().len() as int + 0;
        let t2 = self.1.sql_text(prefixes);
        self.1.lemma_marks(prefixes);
        lemma_marks_concat(a1, n1, t2, self.1.sql_params().len() as int);
        let a2 = a1 + t2;
        let n2: int = n1 + self.1.sql_params().len() as int;
        let t3 = ", "@;
        reveal_strlit(", ");
        lemma_plain_marks(", "@);
        lemma_marks_concat(a2, n2, t3, 0);
        let a3 = a2 + t3;
        let n3: int = n2 + 0;
        let t4 = self.2.sql_text(prefixes);
        self.2.lemma_marks(prefixes);
        lemma_marks_concat(a3, n3, t4, self.2.sql_params().len() as int);
        let a4 = a3 + t4;
        let n4: int = n3 + self.2.sql_params().len() as int;
        let t5 = ", "@;
        reveal_strlit(", ");
        lemma_plain_marks(", "@);
        lemma_marks_concat(a4, n4, t5, 0);
        let a5 = a4 + t5;
        let n5: int = n4 + 0;
        let t6 = self.3.sql_text(prefixes);
        self.3.lemma_marks(prefixes);
        lemma_marks_concat(a5, n5, t6, self.3.sql_params().len() as int);
        let a6 = a5 + t6;
        let n6: int = n5 + self.3.sql_params().len() as int;
        let t7 = ", "@;
        reveal_strlit(", ");
        lemma_plain_marks(", "@);
        lemma_marks_concat(a6, n6, t7, 0);
        let a7 = a6 + t7;
        let n7: int = n6 + 0;
        let t8 = self.4.sql_text(prefixes);
        self.4.lemma_marks(prefixes);
        lemma_marks_concat(a7, n7, t8, self.4.sql_params().len() as int);
        let a8 = a7 + t8;
        let n8: int = n7 + self.4.sql_params().len() as int;
        let t9 = ", "@;
        reveal_strlit(", ");
        lemma_plain_marks(", "@);
        lemma_marks_concat(a8, n8, t9, 0);
        let a9 = a8 + t9;
        let n9: int = n8 + 0;
        let t10 = self.5.sql_text(prefixes);
        self.5.lemma_marks(prefixes);
        lemma_marks_concat(a9, n9, t10, self.5.sql_params().len() as int);
    }

    fn note_names(&self, prefixes: &mut AliasPrefixes) {
        let ghost start = prefixes@;
        self.0.note_names(prefixes);
        let ghost mut done = self.0.alias_names();
        note_part(&self.1, prefixes, Ghost(start), Ghost(done));
        proof {
            done = done + self.1.alias_names();
        }
        note_part(&self.2, prefixes, Ghost(start), Ghost(done));
        proof {
            done = done + self.2.alias_names();
        }
        note_part(&self.3, prefixes, Ghost(start), Ghost(done));
        proof {
            done = done + self.3.alias_names();
        }
        note_part(&self.4, prefixes, Ghost(start), Ghost(done));
        proof {
            done = done + self.4.alias_names();
        }
        note_part(&self.5, prefixes, Ghost(start), Ghost(done));
    }

    fn build_sql_in(
        &self,
        prefixes: &AliasPrefixes,
        buf: &mut Vec<u8>,
        params: &mut Vec<Value>,
    ) -> (r: Result<(), BuildSqlError>) {
        let ghost base = buf@;
        let ghost bound = params.deep_view();
        self.0.build_sql_in(prefixes, buf, params)?;
        let ghost mut text = self.0.sql_text(prefixes@);
        let ghost mut values = self.0.sql_params();
        let run = Ghost(Rendered { base, text, bound, values });
        build_after(", ", &self.1, prefixes, buf, params, run)?;
        proof {
            text = text + ", "@ + self.1.sql_text(prefixes@);
            values = values + self.1.sql_params();
        }
        let run = Ghost(Rendered { base, text, bound, values });
        build_after(", ", &self.2, prefixes, buf, params, run)?;
        proof {
            text = text + ", "@ + self.2.sql_text(prefixes@);
            values = values + self.2.sql_params();
        }
        let run = Ghost(Rendered { base, text, bound, values });
        build_after(", ", &self.3, prefixes, buf, params, run)?;
        proof {
            text = text + ", "@ + self.3.sql_text(prefixes@);
            values = values + self.3.sql_params();
        }
        let run = Ghost(Rendered { base, text, bound, values });
        build_after(", ", &self.4, prefixes, buf, params, run)?;
        proof {
            text = text + ", "@ + self.4.sql_text(prefixes@);
            values = values + self.4.sql_params();
        }
        let run = Ghost(Rendered { base, text, bound, values });
        build_after(", ", &self.5, prefixes, buf, params, run)?;
        Ok(())
    }
}

impl<A, B, C, D, E, F, G> TypeTag for (A, B, C, D, E, F, G) where
    A: TypeTag,
    B: TypeTag,
    C: TypeTag,
    D: TypeTag,
    E: TypeTag,
    F: TypeTag,
    G: TypeTag,
 {
    open spec fn type_tag() -> SqlTypeTag {
        SqlTypeTag::Row(
            seq![
                A::type_tag(),
                B::type_tag(),
                C::type_tag(),
                D::type_tag(),
                E::type_tag(),
                F::type_tag(),
                G::type_tag(),
            ],
        )
    }
}

impl<A, B, C, D, E, F, G> ColumnList for (A, B, C, D, E, F, G) {
}

impl<A, B, C, D, E, F, G> Columns for (A, B, C, D, E, F, G) where
    A: Columns,
    B: Columns,
    C: Columns,
    D: Columns,
    E: Columns,
    F: Columns,
    G: Columns,
    A::Aggregation: Aggregation<(B::Aggregation, (C::Aggregation, (D::Aggregation,
        (E::Aggregation, (F::Aggregation, (G::Aggregation, ()))))))>,
 {
    type SqlType = (A::SqlType, B::SqlType, C::SqlType, D::SqlType, E::SqlType, F::SqlType,
                       G::SqlType);

    type Aggregation = <A::Aggregation as Aggregation<(B::Aggregation, (C::Aggregation,
                           (D::Aggregation, (E::Aggregation, (F::Aggregation, (G::Aggregation,
                           ()))))))>>::Output;
}

impl<A, B, C, D, E, F, G> Expression for Record<
    (A, B, C, D, E, F, G),
> where
    A: Expression,
    B: Expression,
    C: Expression,
    D: Expression,
    E: Expression,
    F: Expression,
    G: Expression,
    A::Aggregation: Aggregation<(B::Aggregation, (C::Aggregation, (D::Aggregation,
        (E::Aggregation, (F::Aggregation, (G::Aggregation, ()))))))>,
 {
    type SqlType = (A::SqlType, B::SqlType, C::SqlType, D::SqlType, E::SqlType, F::SqlType,
                       G::SqlType);

    type Term = Polynomial;

    type BoolOperation = BoolMono;

    type Aggregation = <A::Aggregation as Aggregation<(B::Aggregation, (C::Aggregation,
                           (D::Aggregation, (E::Aggregation, (F::Aggregation, (G::Aggregation,
                           ()))))))>>::Output;
}

impl<A, B, C, D, E, F, G> Orders for (A, B, C, D, E, F, G) where
    A: Orders,
    B: Orders,
    C: Orders,
    D: Orders,
    E: Orders,
    F: Orders,
    G: Orders,
 {
}

impl<A, B, C, D, E, F, G> BuildSql for (A, B, C, D, E, F, G) where
    A: BuildSql,
    B: BuildSql,
    C: BuildSql,
    D: BuildSql,
    E: BuildSql,
    F: BuildSql,
    G: BuildSql,
 {
    open spec fn sql_text(&self, prefixes: Prefixes) -> Seq<char> {
        self.0.sql_text(prefixes)
            + ", "@ + self.1.sql_text(prefixes)
            + ", "@ + self.2.sql_text(prefixes)
            + ", "@ + self.3.sql_text(prefixes)
            + ", "@ + self.4.sql_text(prefixes)
            + ", "@ + self.5.sql_text(prefixes)
            + ", "@ + self.6.sql_text(prefixes)
    }

    open spec fn sql_params(&self) -> Seq<ValueView> {
        self.0.sql_params()
            + self.1.sql_params()
            + self.2.sql_params()
            + self.3.sql_params()
            + self.4.sql_params()
            + self.5.sql_params()
            + self.6.sql_params()
    }

    open spec fn alias_names(&self) -> Seq<SourceAliasName> {
        self.0.alias_names()
            + self.1.alias_names()
            + self.2.alias_names()
            + self.3.alias_names()
            + self.4.alias_names()
            + self.5.alias_names()
            + self.6.alias_names()
    }

    open spec fn plain_names(&self) -> bool {
        self.0.plain_names()
            && self.1.plain_names()
            && self.2.plain_names()
            && self.3.plain_names()
            && self.4.plain_names()
            && self.5.plain_names()
            && self.6.plain_names()
    }

    open spec fn infallible(&self) -> bool {
        self.0.infallible()
            && self.1.infallible()
            && self.2.infallible()
            && self.3.infallible()
            && self.4.infallible()
            && self.5.infallible()
            && self.6.infallible()
    }

    proof fn lemma_marks(&self, prefixes: Prefixes) {
        let t0 = self.0.sql_text(prefixes);
        self.0.lemma_marks(prefixes);
        let t1 = ", "@;
        reveal_strlit(", ");
        lemma_plain_marks(", "@);
        lemma_marks_concat(t0, self.0.sql_params().len() as int, t1, 0);
        let a1 = t0 + t1;
        let n1: int = self.0.sql_params().len() as int + 0;
        let t2 = self.1.sql_text(prefixes);
        self.1.lemma_marks(prefixes);
        lemma_marks_concat(a1, n1, t2, self.1.sql_params().len() as int);
        let a2 = a1 + t2;
        let n2: int = n1 + self.1.sql_params().len() as int;
        let t3 = ", "@;
        reveal_strlit(", ");
        lemma_plain_marks(", "@);
        lemma_marks_concat(a2, n2, t3, 0);
        let a3 = a2 + t3;
        let n3: int = n2 + 0;
        let t4 = self.2.sql_text(prefixes);
        self.2.lemma_marks(prefixes);
        lemma_marks_concat(a3, n3, t4, self.2.sql_params().len() as int);
        let a4 = a3 + t4;
        let n4: int = n3 + self.2.sql_params().len() as int;
        let t5 = ", "@;
        reveal_strlit(", ");
        lemma_plain_marks(", "@);
        lemma_marks_concat(a4, n4, t5, 0);
        let a5 = a4 + t5;
        let n5: int = n4 + 0;
        let t6 = self.3.sql_text(prefixes);
        self.3.lemma_marks(prefixes);
        lemma_marks_concat(a5, n5, t6, self.3.sql_params().len() as int);
        let a6 = a5 + t6;
        let n6: int = n5 + self.3.sql_params().len() as int;
        let t7 = ", "@;
        reveal_strlit(", ");
        lemma_plain_marks(", "@);
        lemma_marks_concat(a6, n6, t7, 0);
        let a7 = a6 + t7;
        let n7: int = n6 + 0;
        let t8 = self.4.sql_text(prefixes);
        self.4.lemma_marks(prefixes);
        lemma_marks_concat(a7, n7, t8, self.4.sql_params().len() as int);
        let a8 = a7 + t8;
        let n8: int = n7 + self.4.sql_params().len() as int;
        let t9 = ", "@;
        reveal_strlit(", ");
        lemma_plain_marks(", "@);
        lemma_marks_concat(a8, n8, t9, 0);
        let a9 = a8 + t9;
        let n9: int = n8 + 0;
        let t10 = self.5.sql_text(prefixes);
        self.5.lemma_marks(prefixes);
        lemma_marks_concat(a9, n9, t10, self.5.sql_params().len() as int);
        let a10 = a9 + t10;
        let n10: int = n9 + self.5.sql_params().len() as int;
        let t11 = ", "@;
        reveal_strlit(", ");
        lemma_plain_marks(", "@);
        lemma_marks_concat(a10, n10, t11, 0);
        let a11 = a10 + t11;
        let n11: int = n10 + 0;
        let t12 = self.6.sql_text(prefixes);
        self.6.lemma_marks(prefixes);
        lemma_marks_concat(a11, n11, t12, self.6.sql_params().len() as int);
    }

    fn note_names(&self, prefixes: &mut AliasPrefixes) {
        let ghost start = prefixes@;
        self.0.note_names(prefixes);
        let ghost mut done = self.0.alias_names();
        note_part(&self.1, prefixes, Ghost(start), Ghost(done));
        proof {
            done = done + self.1.alias_names();
        }
        note_part(&self.2, prefixes, Ghost(start), Ghost(done));
        proof {
            done = done + self.2.alias_names();
        }
        note_part(&self.3, prefixes, Ghost(start), Ghost(done));
        proof {
            done = done + self.3.alias_names();
        }
        note_part(&self.4, prefixes, Ghost(start), Ghost(done));
        proof {
            done = done + self.4.alias_names();
        }
        note_part(&self.5, prefixes, Ghost(start), Ghost(done));
        proof {
            done = done + self.5.alias_names();
        }
        note_part(&self.6, prefixes, Ghost(start), Ghost(done));
    }

    fn build_sql_in(
        &self,
        prefixes: &AliasPrefixes,
        buf: &mut Vec<u8>,
        params: &mut Vec<Value>,
    ) -> (r: Result<(), BuildSqlError>) {
        let ghost base = buf@;
        let ghost bound = params.deep_view();
        self.0.build_sql_in(prefixes, buf, params)?;
        let ghost mut text = self.0.sql_text(prefixes@);
        let ghost mut values = self.0.sql_params();
        let run = Ghost(Rendered { base, text, bound, values });
        build_after(", ", &self.1, prefixes, buf, params, run)?;
        proof {
            text = text + ", "@ + self.1.sql_text(prefixes@);
            values = values + self.1.sql_params();
        }
        let run = Ghost(Rendered { base, text, bound, values });
        build_after(", ", &self.2, prefixes, buf, params, run)?;
        proof {
            text = text + ", "@ + self.2.sql_text(prefixes@);
            values = values + self.2.sql_params();
        }
        let run = Ghost(Rendered { base, text, bound, values });
        build_after(", ", &self.3, prefixes, buf, params, run)?;
        proof {
            text = text + ", "@ + self.3.sql_text(prefixes@);
            values = values + self.3.sql_params();
        }
        let run = Ghost(Rendered { base, text, bound, values });
        build_after(", ", &self.4, prefixes, buf, params, run)?;
        proof {
            text = text + ", "@ + self.4.sql_text(prefixes@);
            values = values + self.4.sql_params();
        }
        let run = Ghost(Rendered { base, text, bound, values });
        build_after(", ", &self.5, prefixes, buf, params, run)?;
        proof {
            text = text + ", "@ + self.5.sql_text(prefixes@);
            values = values + self.5.sql_params();
        }
        let run = Ghost(Rendered { base, text, bound, values });
        build_after(", ", &self.6, prefixes, buf, params, run)?;
        Ok(())
    }
}

impl<A, B, C, D, E, F, G, H> TypeTag for (A, B, C, D, E, F, G, H) where
    A: TypeTag,
    B: TypeTag,
    C: TypeTag,
    D: TypeTag,
    E: TypeTag,
    F: TypeTag,
    G: TypeTag,
    H: TypeTag,
 {
    open spec fn type_tag() -> SqlTypeTag {
        SqlTypeTag::Row(
            seq![
                A::type_tag(),
                B::type_tag(),
                C::type_tag(),
                D::type_tag(),
                E::type_tag(),
                F::type_tag(),
                G::type_tag(),
                H::type_tag(),
            ],
        )
    }
}

impl<A, B, C, D, E, F, G, H> ColumnList for (A, B, C, D, E, F, G, H) {
}

impl<A, B, C, D, E, F, G, H> Columns for (A, B, C, D, E, F, G, H) where
    A: Columns,
    B: Columns,
    C: Columns,
    D: Columns,
    E: Columns,
    F: Columns,
    G: Columns,
    H: Columns,
    A::Aggregation: Aggregation<(B::Aggregation, (C::Aggregation, (D::Aggregation,
        (E::Aggregation, (F::Aggregation, (G::Aggregation, (H::Aggregation, ())))))))>,
 {
    type SqlType = (A::SqlType, B::SqlType, C::SqlType, D::SqlType, E::SqlType, F::SqlType,
                       G::SqlType, H::SqlType);

    type Aggregation = <A::Aggregation as Aggregation<(B::Aggregation, (C::Aggregation,
                           (D::Aggregation, (E::Aggregation, (F::Aggregation, (G::Aggregation,
                           (H::Aggregation, ())))))))>>::Output;
}

impl<A, B, C, D, E, F, G, H> Expression for Record<
    (A, B, C, D, E, F, G, H),
> where
    A: Expression,
    B: Expression,
    C: Expression,
    D: Expression,
    E: Expression,
    F: Expression,
    G: Expression,
    H: Expression,
    A::Aggregation: Aggregation<(B::Aggregation, (C::Aggregation, (D::Aggregation,
        (E::Aggregation, (F::Aggregation, (G::Aggregation, (H::Aggregation, ())))))))>,
 {
    type SqlType = (A::SqlType, B::SqlType, C::SqlType, D::SqlType, E::SqlType, F::SqlType,
                       G::SqlType, H::SqlType);

    type Term = Polynomial;

    type BoolOperation = BoolMono;

    type Aggregation = <A::Aggregation as Aggregation<(B::Aggregation, (C::Aggregation,
                           (D::Aggregation, (E::Aggregation, (F::Aggregation, (G::Aggregation,
                           (H::Aggregation, ())))))))>>::Output;
}

impl<A, B, C, D, E, F, G, H> Orders for (A, B, C, D, E, F, G, H) where
    A: Orders,
    B: Orders,
    C: Orders,
    D: Orders,
    E: Orders,
    F: Orders,
    G: Orders,
    H: Orders,
 {
}

impl<A, B, C, D, E, F, G, H> BuildSql for (A, B, C, D, E, F, G, H) where
    A: BuildSql,
    B: BuildSql,
    C: BuildSql,
    D: BuildSql,
    E: BuildSql,
    F: BuildSql,
    G: BuildSql,
    H: BuildSql,
 {
    open spec fn sql_text(&self, prefixes: Prefixes) -> Seq<char> {
        self.0.sql_text(prefixes)
            + ", "@ + self.1.sql_text(prefixes)
            + ", "@ + self.2.sql_text(prefixes)
            + ", "@ + self.3.sql_text(prefixes)
            + ", "@ + self.4.sql_text(prefixes)
            + ", "@ + self.5.sql_text(prefixes)
            + ", "@ + self.6.sql_text(prefixes)
            + ", "@ + self.7.sql_text(prefixes)
    }

    open spec fn sql_params(&self) -> Seq<ValueView> {
        self.0.sql_params()
            + self.1.sql_params()
            + self.2.sql_params()
            + self.3.sql_params()
            + self.4.sql_params()
            + self.5.sql_params()
            + self.6.sql_params()
            + self.7.sql_params()
    }

    open spec fn alias_names(&self) -> Seq<SourceAliasName> {
        self.0.alias_names()
            + self.1.alias_names()
            + self.2.alias_names()
            + self.3.alias_names()
            + self.4.alias_names()
            + self.5.alias_names()
            + self.6.alias_names()
            + self.7.alias_names()
    }

    open spec fn plain_names(&self) -> bool {
        self.0.plain_names()
            && self.1.plain_names()
            && self.2.plain_names()
            && self.3.plain_names()
            && self.4.plain_names()
            && self.5.plain_names()
            && self.6.plain_names()
            && self.7.plain_names()
    }

    open spec fn infallible(&self) -> bool {
        self.0.infallible()
            && self.1.infallible()
            && self.2.infallible()
            && self.3.infallible()
            && self.4.infallible()
            && self.5.infallible()
            && self.6.infallible()
            && self.7.infallible()
    }

    proof fn lemma_marks(&self, prefixes: Prefixes) {
        let t0 = self.0.sql_text(prefixes);
        self.0.lemma_marks(prefixes);
        let t1 = ", "@;
        reveal_strlit(", ");
        lemma_plain_marks(", "@);
        lemma_marks_concat(t0, self.0.sql_params().len() as int, t1, 0);
        let a1 = t0 + t1;
        let n1: int = self.0.sql_params().len() as int + 0;
        let t2 = self.1.sql_text(prefixes);
        self.1.lemma_marks(prefixes);
        lemma_marks_concat(a1, n1, t2, self.1.sql_params().len() as int);
        let a2 = a1 + t2;
        let n2: int = n1 + self.1.sql_params().len() as int;
        let t3 = ", "@;
        reveal_strlit(", ");
        lemma_plain_marks(", "@);
        lemma_marks_concat(a2, n2, t3, 0);
        let a3 = a2 + t3;
        let n3: int = n2 + 0;
        let t4 = self.2.sql_text(prefixes);
        self.2.lemma_marks(prefixes);
        lemma_marks_concat(a3, n3, t4, self.2.sql_params().len() as int);
        let a4 = a3 + t4;
        let n4: int = n3 + self.2.sql_params().len() as int;
        let t5 = ", "@;
        reveal_strlit(", ");
        lemma_plain_marks(", "@);
        lemma_marks_concat(a4, n4, t5, 0);
        let a5 = a4 + t5;
        let n5: int = n4 + 0;
        let t6 = self.3.sql_text(prefixes);
        self.3.lemma_marks(prefixes);
        lemma_marks_concat(a5, n5, t6, self.3.sql_params().len() as int);
        let a6 = a5 + t6;
        let n6: int = n5 + self.3.sql_params().len() as int;
        let t7 = ", "@;
        reveal_strlit(", ");
        lemma_plain_marks(", "@);
        lemma_marks_concat(a6, n6, t7, 0);
        let a7 = a6 + t7;
        let n7: int = n6 + 0;
        let t8 = self.4.sql_text(prefixes);
        self.4.lemma_marks(prefixes);
        lemma_marks_concat(a7, n7, t8, self.4.sql_params().len() as int);
        let a8 = a7 + t8;
        let n8: int = n7 + self.4.sql_params().len() as int;
        let t9 = ", "@;
        reveal_strlit(", ");
        lemma_plain_marks(", "@);
        lemma_marks_concat(a8, n8, t9, 0);
        let a9 = a8 + t9;
        let n9: int = n8 + 0;
        let t10 = self.5.sql_text(prefixes);
        self.5.lemma_marks(prefixes);
        lemma_marks_concat(a9, n9, t10, self.5.sql_params().len() as int);
        let a10 = a9 + t10;
        let n10: int = n9 + self.5.sql_params().len() as int;
        let t11 = ", "@;
        reveal_strlit(", ");
        lemma_plain_marks(", "@);
        lemma_marks_concat(a10, n10, t11, 0);
        let a11 = a10 + t11;
        let n11: int = n10 + 0;
        let t12 = self.6.sql_text(prefixes);
        self.6.lemma_marks(prefixes);
        lemma_marks_concat(a11, n11, t12, self.6.sql_params().len() as int);
        let a12 = a11 + t12;
        let n12: int = n11 + self.6.sql_params().len() as int;
        let t13 = ", "@;
        reveal_strlit(", ");
        lemma_plain_marks(", "@);
        lemma_marks_concat(a12, n12, t13, 0);
        let a13 = a12 + t13;
        let n13: int = n12 + 0;
        let t14 = self.7.sql_text(prefixes);
        self.7.lemma_marks(prefixes);
        lemma_marks_concat(a13, n13, t14, self.7.sql_params().len() as int);
    }

    fn note_names(&self, prefixes: &mut AliasPrefixes) {
        let ghost start = prefixes@;
        self.0.note_names(prefixes);
        let ghost mut done = self.0.alias_names();
        note_part(&self.1, prefixes, Ghost(start), Ghost(done));
        proof {
            done = done + self.1.alias_names();
        }
        note_part(&self.2, prefixes, Ghost(start), Ghost(done));
        proof {
            done = done + self.2.alias_names();
        }
        note_part(&self.3, prefixes, Ghost(start), Ghost(done));
        proof {
            done = done + self.3.alias_names();
        }
        note_part(&self.4, prefixes, Ghost(start), Ghost(done));
        proof {
            done = done + self.4.alias_names();
        }
        note_part(&self.5, prefixes, Ghost(start), Ghost(done));
        proof {
            done = done + self.5.alias_names();
        }
        note_part(&self.6, prefixes, Ghost(start), Ghost(done));
        proof {
            done = done + self.6.alias_names();
        }
        note_part(&self.7, prefixes, Ghost(start), Ghost(done));
    }

    fn build_sql_in(
        &self,
        prefixes: &AliasPrefixes,
        buf: &mut Vec<u8>,
        params: &mut Vec<Value>,
    ) -> (r: Result<(), BuildSqlError>) {
        let ghost base = buf@;
        let ghost bound = params.deep_view();
        self.0.build_sql_in(prefixes, buf, params)?;
        let ghost mut text = self.0.sql_text(prefixes@);
        let ghost mut values = self.0.sql_params();
        let run = Ghost(Rendered { base, text, bound, values });
        build_after(", ", &self.1, prefixes, buf, params, run)?;
        proof {
            text = text + ", "@ + self.1.sql_text(prefixes@);
            values = values + self.1.sql_params();
        }
        let run = Ghost(Rendered { base, text, bound, values });
        build_after(", ", &self.2, prefixes, buf, params, run)?;
        proof {
            text = text + ", "@ + self.2.sql_text(prefixes@);
            values = values + self.2.sql_params();
        }
        let run = Ghost(Rendered { base, text, bound, values });
        build_after(", ", &self.3, prefixes, buf, params, run)?;
        proof {
            text = text + ", "@ + self.3.sql_text(prefixes@);
            values = values + self.3.sql_params();
        }
        let run = Ghost(Rendered { base, text, bound, values });
        build_after(", ", &self.4, prefixes, buf, params, run)?;
        proof {
            text = text + ", "@ + self.4.sql_text(prefixes@);
            values = values + self.4.sql_params();
        }
        let run = Ghost(Rendered { base, text, bound, values });
        build_after(", ", &self.5, prefixes, buf, params, run)?;
        proof {
            text = text + ", "@ + self.5.sql_text(prefixes@);
            values = values + self.5.sql_params();
        }
        let run = Ghost(Rendered { base, text, bound, values });
        build_after(", ", &self.6, prefixes, buf, params, run)?;
        proof {
            text = text + ", "@ + self.6.sql_text(prefixes@);
            values = values + self.6.sql_params();
        }
        let run = Ghost(Rendered { base, text, bound, values });
        build_after(", ", &self.7, prefixes, buf, params, run)?;
        Ok(())
    }
}

impl<A, B, C, D, E, F, G, H, I> TypeTag for (A, B, C, D, E, F, G, H, I) where
    A: TypeTag,
    B: TypeTag,
    C: TypeTag,
    D: TypeTag,
    E: TypeTag,
    F: TypeTag,
    G: TypeTag,
    H: TypeTag,
    I: TypeTag,
 {
    open spec fn type_tag() -> SqlTypeTag {
        SqlTypeTag::Row(
            seq![
                A::type_tag(),
                B::type_tag(),
                C::type_tag(),
                D::type_tag(),
                E::type_tag(),
                F::type_tag(),
                G::type_tag(),
                H::type_tag(),
                I::type_tag(),
            ],
        )
    }
}

impl<A, B, C, D, E, F, G, H, I> ColumnList for (A, B, C, D, E, F, G, H, I) {
}

impl<A, B, C, D, E, F, G, H, I> Columns for (A, B, C, D, E, F, G, H, I) where
    A: Columns,
    B: Columns,
    C: Columns,
    D: Columns,
    E: Columns,
    F: Columns,
    G: Columns,
    H: Columns,
    I: Columns,
    A::Aggregation: Aggregation<(B::Aggregation, (C::Aggregation, (D::Aggregation,
        (E::Aggregation, (F::Aggregation, (G::Aggregation, (H::Aggregation, (I::Aggregation,
        ()))))))))>,
 {
    type SqlType = (A::SqlType, B::SqlType, C::SqlType, D::SqlType, E::SqlType, F::SqlType,
                       G::SqlType, H::SqlType, I::SqlType);

    type Aggregation = <A::Aggregation as Aggregation<(B::Aggregation, (C::Aggregation,
                           (D::Aggregation, (E::Aggregation, (F::Aggregation, (G::Aggregation,
                           (H::Aggregation, (I::Aggregation, ()))))))))>>::Output;
}

impl<A, B, C, D, E, F, G, H, I> Expression for Record<
    (A, B, C, D, E, F, G, H, I),
> where
    A: Expression,
    B: Expression,
    C: Expression,
    D: Expression,
    E: Expression,
    F: Expression,
    G: Expression,
    H: Expression,
    I: Expression,
    A::Aggregation: Aggregation<(B::Aggregation, (C::Aggregation, (D::Aggregation,
        (E::Aggregation, (F::Aggregation, (G::Aggregation, (H::Aggregation, (I::Aggregation,
        ()))))))))>,
 {
    type SqlType = (A::SqlType, B::SqlType, C::SqlType, D::SqlType, E::SqlType, F::SqlType,
                       G::SqlType, H::SqlType, I::SqlType);

    type Term = Polynomial;

    type BoolOperation = BoolMono;

    type Aggregation = <A::Aggregation as Aggregation<(B::Aggregation, (C::Aggregation,
                           (D::Aggregation, (E::Aggregation, (F::Aggregation, (G::Aggregation,
                           (H::Aggregation, (I::Aggregation, ()))))))))>>::Output;
}

impl<A, B, C, D, E, F, G, H, I> Orders for (A, B, C, D, E, F, G, H, I) where
    A: Orders,
    B: Orders,
    C: Orders,
    D: Orders,
    E: Orders,
    F: Orders,
    G: Orders,
    H: Orders,
    I: Orders,
 {
}

impl<A, B, C, D, E, F, G, H, I> BuildSql for (A, B, C, D, E, F, G, H, I) where
    A: BuildSql,
    B: BuildSql,
    C: BuildSql,
    D: BuildSql,
    E: BuildSql,
    F: BuildSql,
    G: BuildSql,
    H: BuildSql,
    I: BuildSql,
 {
    open spec fn sql_text(&self, prefixes: Prefixes) -> Seq<char> {
        self.0.sql_text(prefixes)
            + ", "@ + self.1.sql_text(prefixes)
            + ", "@ + self.2.sql_text(prefixes)
            + ", "@ + self.3.sql_text(prefixes)
            + ", "@ + self.4.sql_text(prefixes)
            + ", "@ + self.5.sql_text(prefixes)
            + ", "@ + self.6.sql_text(prefixes)
            + ", "@ + self.7.sql_text(prefixes)
            + ", "@ + self.8.sql_text(prefixes)
    }

    open spec fn sql_params(&self) -> Seq<ValueView> {
        self.0.sql_params()
            + self.1.sql_params()
            + self.2.sql_params()
            + self.3.sql_params()
            + self.4.sql_params()
            + self.5.sql_params()
            + self.6.sql_params()
            + self.7.sql_params()
            + self.8.sql_params()
    }

    open spec fn alias_names(&self) -> Seq<SourceAliasName> {
        self.0.alias_names()
            + self.1.alias_names()
            + self.2.alias_names()
            + self.3.alias_names()
            + self.4.alias_names()
            + self.5.alias_names()
            + self.6.alias_names()
            + self.7.alias_names()
            + self.8.alias_names()
    }

    open spec fn plain_names(&self) -> bool {
        self.0.plain_names()
            && self.1.plain_names()
            && self.2.plain_names()
            && self.3.plain_names()
            && self.4.plain_names()
            && self.5.plain_names()
            && self.6.plain_names()
            && self.7.plain_names()
            && self.8.plain_names()
    }

    open spec fn infallible(&self) -> bool {
        self.0.infallible()
            && self.1.infallible()
            && self.2.infallible()
            && self.3.infallible()
            && self.4.infallible()
            && self.5.infallible()
            && self.6.infallible()
            && self.7.infallible()
            && self.8.infallible()
    }

    proof fn lemma_marks(&self, prefixes: Prefixes) {
        let t0 = self.0.sql_text(prefixes);
        self.0.lemma_marks(prefixes);
        let t1 = ", "@;
        reveal_strlit(", ");
        lemma_plain_marks(", "@);
        lemma_marks_concat(t0, self.0.sql_params().len() as int, t1, 0);
        let a1 = t0 + t1;
        let n1: int = self.0.sql_params().len() as int + 0;
        let t2 = self.1.sql_text(prefixes);
        self.1.lemma_marks(prefixes);
        lemma_marks_concat(a1, n1, t2, self.1.sql_params().len() as int);
        let a2 = a1 + t2;
        let n2: int = n1 + self.1.sql_params().len() as int;
        let t3 = ", "@;
        reveal_strlit(", ");
        lemma_plain_marks(", "@);
        lemma_marks_concat(a2, n2, t3, 0);
        let a3 = a2 + t3;
        let n3: int = n2 + 0;
        let t4 = self.2.sql_text(prefixes);
        self.2.lemma_marks(prefixes);
        lemma_marks_concat(a3, n3, t4, self.2.sql_params().len() as int);
        let a4 = a3 + t4;
        let n4: int = n3 + self.2.sql_params().len() as int;
        let t5 = ", "@;
        reveal_strlit(", ");
        lemma_plain_marks(", "@);
        lemma_marks_concat(a4, n4, t5, 0);
        let a5 = a4 + t5;
        let n5: int = n4 + 0;
        let t6 = self.3.sql_text(prefixes);
        self.3.lemma_marks(prefixes);
        lemma_marks_concat(a5, n5, t6, self.3.sql_params().len() as int);
        let a6 = a5 + t6;
        let n6: int = n5 + self.3.sql_params().len() as int;
        let t7 = ", "@;
        reveal_strlit(", ");
        lemma_plain_marks(", "@);
        lemma_marks_concat(a6, n6, t7, 0);
        let a7 = a6 + t7;
        let n7: int = n6 + 0;
        let t8 = self.4.sql_text(prefixes);
        self.4.lemma_marks(prefixes);
        lemma_marks_concat(a7, n7, t8, self.4.sql_params().len() as int);
        let a8 = a7 + t8;
        let n8: int = n7 + self.4.sql_params().len() as int;
        let t9 = ", "@;
        reveal_strlit(", ");
        lemma_plain_marks(", "@);
        lemma_marks_concat(a8, n8, t9, 0);
        let a9 = a8 + t9;
        let n9: int = n8 + 0;
        let t10 = self.5.sql_text(prefixes);
        self.5.lemma_marks(prefixes);
        lemma_marks_concat(a9, n9, t10, self.5.sql_params().len() as int);
        let a10 = a9 + t10;
        let n10: int = n9 + self.5.sql_params().len() as int;
        let t11 = ", "@;
        reveal_strlit(", ");
        lemma_plain_marks(", "@);
        lemma_marks_concat(a10, n10, t11, 0);
        let a11 = a10 + t11;
        let n11: int = n10 + 0;
        let t12 = self.6.sql_text(prefixes);
        self.6.lemma_marks(prefixes);
        lemma_marks_concat(a11, n11, t12, self.6.sql_params().len() as int);
        let a12 = a11 + t12;
        let n12: int = n11 + self.6.sql_params().len() as int;
        let t13 = ", "@;
        reveal_strlit(", ");
        lemma_plain_marks(", "@);
        lemma_marks_concat(a12, n12, t13, 0);
        let a13 = a12 + t13;
        let n13: int = n12 + 0;
        let t14 = self.7.sql_text(prefixes);
        self.7.lemma_marks(prefixes);
        lemma_marks_concat(a13, n13, t14, self.7.sql_params().len() as int);
        let a14 = a13 + t14;
        let n14: int = n13 + self.7.sql_params().len() as int;
        let t15 = ", "@;
        reveal_strlit(", ");
        lemma_plain_marks(", "@);
        lemma_marks_concat(a14, n14, t15, 0);
        let a15 = a14 + t15;
        let n15: int = n14 + 0;
        let t16 = self.8.sql_text(prefixes);
        self.8.lemma_marks(prefixes);
        lemma_marks_concat(a15, n15, t16, self.8.sql_params().len() as int);
    }

    fn note_names(&self, prefixes: &mut AliasPrefixes) {
        let ghost start = prefixes@;
        self.0.note_names(prefixes);
        let ghost mut done = self.0.alias_names();
        note_part(&self.1, prefixes, Ghost(start), Ghost(done));
        proof {
            done = done + self.1.alias_names();
        }
        note_part(&self.2, prefixes, Ghost(start), Ghost(done));
        proof {
            done = done + self.2.alias_names();
        }
        note_part(&self.3, prefixes, Ghost(start), Ghost(done));
        proof {
            done = done + self.3.alias_names();
        }
        note_part(&self.4, prefixes, Ghost(start), Ghost(done));
        proof {
            done = done + self.4.alias_names();
        }
        note_part(&self.5, prefixes, Ghost(start), Ghost(done));
        proof {
            done = done + self.5.alias_names();
        }
        note_part(&self.6, prefixes, Ghost(start), Ghost(done));
        proof {
            done = done + self.6.alias_names();
        }
        note_part(&self.7, prefixes, Ghost(start), Ghost(done));
        proof {
            done = done + self.7.alias_names();
        }
        note_part(&self.8, prefixes, Ghost(start), Ghost(done));
    }

    fn build_sql_in(
        &self,
        prefixes: &AliasPrefixes,
        buf: &mut Vec<u8>,
        params: &mut Vec<Value>,
    ) -> (r: Result<(), BuildSqlError>) {
        let ghost base = buf@;
        let ghost bound = params.deep_view();
        self.0.build_sql_in(prefixes, buf, params)?;
        let ghost mut text = self.0.sql_text(prefixes@);
        let ghost mut values = self.0.sql_params();
        let run = Ghost(Rendered { base, text, bound, values });
        build_after(", ", &self.1, prefixes, buf, params, run)?;
        proof {
            text = text + ", "@ + self.1.sql_text(prefixes@);
            values = values + self.1.sql_params();
        }
        let run = Ghost(Rendered { base, text, bound, values });
        build_after(", ", &self.2, prefixes, buf, params, run)?;
        proof {
            text = text + ", "@ + self.2.sql_text(prefixes@);
            values = values + self.2.sql_params();
        }
        let run = Ghost(Rendered { base, text, bound, values });
        build_after(", ", &self.3, prefixes, buf, params, run)?;
        proof {
            text = text + ", "@ + self.3.sql_text(prefixes@);
            values = values + self.3.sql_params();
        }
        let run = Ghost(Rendered { base, text, bound, values });
        build_after(", ", &self.4, prefixes, buf, params, run)?;
        proof {
            text = text + ", "@ + self.4.sql_text(prefixes@);
            values = values + self.4.sql_params();
        }
        let run = Ghost(Rendered { base, text, bound, values });
        build_after(", ", &self.5, prefixes, buf, params, run)?;
        proof {
            text = text + ", "@ + self.5.sql_text(prefixes@);
            values = values + self.5.sql_params();
        }
        let run = Ghost(Rendered { base, text, bound, values });
        build_after(", ", &self.6, prefixes, buf, params, run)?;
        proof {
            text = text + ", "@ + self.6.sql_text(prefixes@);
            values = values + self.6.sql_params();
        }
        let run = Ghost(Rendered { base, text, bound, values });
        build_after(", ", &self.7, prefixes, buf, params, run)?;
        proof {
            text = text + ", "@ + self.7.sql_text(prefixes@);
            values = values + self.7.sql_params();
        }
        let run = Ghost(Rendered { base, text, bound, values });
        build_after(", ", &self.8, prefixes, buf, params, run)?;
        Ok(())
    }
}

impl<A, B, C, D, E, F, G, H, I, J> TypeTag for (A, B, C, D, E, F, G, H, I, J) where
    A: TypeTag,
    B: TypeTag,
    C: TypeTag,
    D: TypeTag,
    E: TypeTag,
    F: TypeTag,
    G: TypeTag,
    H: TypeTag,
    I: TypeTag,
    J: TypeTag,
 {
    open spec fn type_tag() -> SqlTypeTag {
        SqlTypeTag::Row(
            seq![
                A::type_tag(),
                B::type_tag(),
                C::type_tag(),
                D::type_tag(),
                E::type_tag(),
                F::type_tag(),
                G::type_tag(),
                H::type_tag(),
                I::type_tag(),
                J::type_tag(),
            ],
        )
    }
}

impl<A, B, C, D, E, F, G, H, I, J> ColumnList for (A, B, C, D, E, F, G, H, I, J) {
}

impl<A, B, C, D, E, F, G, H, I, J> Columns for (A, B, C, D, E, F, G, H, I, J) where
    A: Columns,
    B: Columns,
    C: Columns,
    D: Columns,
    E: Columns,
    F: Columns,
    G: Columns,
    H: Columns,
    I: Columns,
    J: Columns,
    A::Aggregation: Aggregation<(B::Aggregation, (C::Aggregation, (D::Aggregation,
        (E::Aggregation, (F::Aggregation, (G::Aggregation, (H::Aggregation, (I::Aggregation,
        (J::Aggregation, ())))))))))>,
 {
    type SqlType = (A::SqlType, B::SqlType, C::SqlType, D::SqlType, E::SqlType, F::SqlType,
                       G::SqlType, H::SqlType, I::SqlType, J::SqlType);

    type Aggregation = <A::Aggregation as Aggregation<(B::Aggregation, (C::Aggregation,
                           (D::Aggregation, (E::Aggregation, (F::Aggregation, (G::Aggregation,
                           (H::Aggregation, (I::Aggregation, (J::Aggregation, ())))))))))>>::Output;
}

impl<A, B, C, D, E, F, G, H, I, J> Expression for Record<
    (A, B, C, D, E, F, G, H, I, J),
> where
    A: Expression,
    B: Expression,
    C: Expression,
    D: Expression,
    E: Expression,
    F: Expression,
    G: Expression,
    H: Expression,
    I: Expression,
    J: Expression,
    A::Aggregation: Aggregation<(B::Aggregation, (C::Aggregation, (D::Aggregation,
        (E::Aggregation, (F::Aggregation, (G::Aggregation, (H::Aggregation, (I::Aggregation,
        (J::Aggregation, ())))))))))>,
 {
    type SqlType = (A::SqlType, B::SqlType, C::SqlType, D::SqlType, E::SqlType, F::SqlType,
                       G::SqlType, H::SqlType, I::SqlType, J::SqlType);

    type Term = Polynomial;

    type BoolOperation = BoolMono;

    type Aggregation = <A::Aggregation as Aggregation<(B::Aggregation, (C::Aggregation,
                           (D::Aggregation, (E::Aggregation, (F::Aggregation, (G::Aggregation,
                           (H::Aggregation, (I::Aggregation, (J::Aggregation, ())))))))))>>::Output;
}

impl<A, B, C, D, E, F, G, H, I, J> Orders for (A, B, C, D, E, F, G, H, I, J) where
    A: Orders,
    B: Orders,
    C: Orders,
    D: Orders,
    E: Orders,
    F: Orders,
    G: Orders,
    H: Orders,
    I: Orders,
    J: Orders,
 {
}

impl<A, B, C, D, E, F, G, H, I, J> BuildSql for (A, B, C, D, E, F, G, H, I, J) where
    A: BuildSql,
    B: BuildSql,
    C: BuildSql,
    D: BuildSql,
    E: BuildSql,
    F: BuildSql,
    G: BuildSql,
    H: BuildSql,
    I: BuildSql,
    J: BuildSql,
 {
    open spec fn sql_text(&self, prefixes: Prefixes) -> Seq<char> {
        self.0.sql_text(prefixes)
            + ", "@ + self.1.sql_text(prefixes)
            + ", "@ + self.2.sql_text(prefixes)
            + ", "@ + self.3.sql_text(prefixes)
            + ", "@ + self.4.sql_text(prefixes)
            + ", "@ + self.5.sql_text(prefixes)
            + ", "@ + self.6.sql_text(prefixes)
            + ", "@ + self.7.sql_text(prefixes)
            + ", "@ + self.8.sql_text(prefixes)
            + ", "@ + self.9.sql_text(prefixes)
    }

    open spec fn sql_params(&self) -> Seq<ValueView> {
        self.0.sql_params()
            + self.1.sql_params()
            + self.2.sql_params()
            + self.3.sql_params()
            + self.4.sql_params()
            + self.5.sql_params()
            + self.6.sql_params()
            + self.7.sql_params()
            + self.8.sql_params()
            + self.9.sql_params()
    }

    open spec fn alias_names(&self) -> Seq<SourceAliasName> {
        self.0.alias_names()
            + self.1.alias_names()
            + self.2.alias_names()
            + self.3.alias_names()
            + self.4.alias_names()
            + self.5.alias_names()
            + self.6.alias_names()
            + self.7.alias_names()
            + self.8.alias_names()
            + self.9.alias_names()
    }

    open spec fn plain_names(&self) -> bool {
        self.0.plain_names()
            && self.1.plain_names()
            && self.2.plain_names()
            && self.3.plain_names()
            && self.4.plain_names()
            && self.5.plain_names()
            && self.6.plain_names()
            && self.7.plain_names()
            && self.8.plain_names()
            && self.9.plain_names()
    }

    open spec fn infallible(&self) -> bool {
        self.0.infallible()
            && self.1.infallible()
            && self.2.infallible()
            && self.3.infallible()
            && self.4.infallible()
            && self.5.infallible()
            && self.6.infallible()
            && self.7.infallible()
            && self.8.infallible()
            && self.9.infallible()
    }

    proof fn lemma_marks(&self, prefixes: Prefixes) {
        let t0 = self.0.sql_text(prefixes);
        self.0.lemma_marks(prefixes);
        let t1 = ", "@;
        reveal_strlit(", ");
        lemma_plain_marks(", "@);
        lemma_marks_concat(t0, self.0.sql_params().len() as int, t1, 0);
        let a1 = t0 + t1;
        let n1: int = self.0.sql_params().len() as int + 0;
        let t2 = self.1.sql_text(prefixes);
        self.1.lemma_marks(prefixes);
        lemma_marks_concat(a1, n1, t2, self.1.sql_params().len() as int);
        let a2 = a1 + t2;
        let n2: int = n1 + self.1.sql_params().len() as int;
        let t3 = ", "@;
        reveal_strlit(", ");
        lemma_plain_marks(", "@);
        lemma_marks_concat(a2, n2, t3, 0);
        let a3 = a2 + t3;
        let n3: int = n2 + 0;
        let t4 = self.2.sql_text(prefixes);
        self.2.lemma_marks(prefixes);
        lemma_marks_concat(a3, n3, t4, self.2.sql_params().len() as int);
        let a4 = a3 + t4;
        let n4: int = n3 + self.2.sql_params().len() as int;
        let t5 = ", "@;
        reveal_strlit(", ");
        lemma_plain_marks(", "@);
        lemma_marks_concat(a4, n4, t5, 0);
        let a5 = a4 + t5;
        let n5: int = n4 + 0;
        let t6 = self.3.sql_text(prefixes);
        self.3.lemma_marks(prefixes);
        lemma_marks_concat(a5, n5, t6, self.3.sql_params().len() as int);
        let a6 = a5 + t6;
        let n6: int = n5 + self.3.sql_params().len() as int;
        let t7 = ", "@;
        reveal_strlit(", ");
        lemma_plain_marks(", "@);
        lemma_marks_concat(a6, n6, t7, 0);
        let a7 = a6 + t7;
        let n7: int = n6 + 0;
        let t8 = self.4.sql_text(prefixes);
        self.4.lemma_marks(prefixes);
        lemma_marks_concat(a7, n7, t8, self.4.sql_params().len() as int);
        let a8 = a7 + t8;
        let n8: int = n7 + self.4.sql_params().len() as int;
        let t9 = ", "@;
        reveal_strlit(", ");
        lemma_plain_marks(", "@);
        lemma_marks_concat(a8, n8, t9, 0);
        let a9 = a8 + t9;
        let n9: int = n8 + 0;
        let t10 = self.5.sql_text(prefixes);
        self.5.lemma_marks(prefixes);
        lemma_marks_concat(a9, n9, t10, self.5.sql_params().len() as int);
        let a10 = a9 + t10;
        let n10: int = n9 + self.5.sql_params().len() as int;
        let t11 = ", "@;
        reveal_strlit(", ");
        lemma_plain_marks(", "@);
        lemma_marks_concat(a10, n10, t11, 0);
        let a11 = a10 + t11;
        let n11: int = n10 + 0;
        let t12 = self.6.sql_text(prefixes);
        self.6.lemma_marks(prefixes);
        lemma_marks_concat(a11, n11, t12, self.6.sql_params().len() as int);
        let a12 = a11 + t12;
        let n12: int = n11 + self.6.sql_params().len() as int;
        let t13 = ", "@;
        reveal_strlit(", ");
        lemma_plain_marks(", "@);
        lemma_marks_concat(a12, n12, t13, 0);
        let a13 = a12 + t13;
        let n13: int = n12 + 0;
        let t14 = self.7.sql_text(prefixes);
        self.7.lemma_marks(prefixes);
        lemma_marks_concat(a13, n13, t14, self.7.sql_params().len() as int);
        let a14 = a13 + t14;
        let n14: int = n13 + self.7.sql_params().len() as int;
        let t15 = ", "@;
        reveal_strlit(", ");
        lemma_plain_marks(", "@);
        lemma_marks_concat(a14, n14, t15, 0);
        let a15 = a14 + t15;
        let n15: int = n14 + 0;
        let t16 = self.8.sql_text(prefixes);
        self.8.lemma_marks(prefixes);
        lemma_marks_concat(a15, n15, t16, self.8.sql_params().len() as int);
        let a16 = a15 + t16;
        let n16: int = n15 + self.8.sql_params().len() as int;
        let t17 = ", "@;
        reveal_strlit(", ");
        lemma_plain_marks(", "@);
        lemma_marks_concat(a16, n16, t17, 0);
        let a17 = a16 + t17;
        let n17: int = n16 + 0;
        let t18 = self.9.sql_text(prefixes);
        self.9.lemma_marks(prefixes);
        lemma_marks_concat(a17, n17, t18, self.9.sql_params().len() as int);
    }

    fn note_names(&self, prefixes: &mut AliasPrefixes) {
        let ghost start = prefixes@;
        self.0.note_names(prefixes);
        let ghost mut done = self.0.alias_names();
        note_part(&self.1, prefixes, Ghost(start), Ghost(done));
        proof {
            done = done + self.1.alias_names();
        }
        note_part(&self.2, prefixes, Ghost(start), Ghost(done));
        proof {
            done = done + self.2.alias_names();
        }
        note_part(&self.3, prefixes, Ghost(start), Ghost(done));
        proof {
            done = done + self.3.alias_names();
        }
        note_part(&self.4, prefixes, Ghost(start), Ghost(done));
        proof {
            done = done + self.4.alias_names();
        }
        note_part(&self.5, prefixes, Ghost(start), Ghost(done));
        proof {
            done = done + self.5.alias_names();
        }
        note_part(&self.6, prefixes, Ghost(start), Ghost(done));
        proof {
            done = done + self.6.alias_names();
        }
        note_part(&self.7, prefixes, Ghost(start), Ghost(done));
        proof {
            done = done + self.7.alias_names();
        }
        note_part(&self.8, prefixes, Ghost(start), Ghost(done));
        proof {
            done = done + self.8.alias_names();
        }
        note_part(&self.9, prefixes, Ghost(start), Ghost(done));
    }

    fn build_sql_in(
        &self,
        prefixes: &AliasPrefixes,
        buf: &mut Vec<u8>,
        params: &mut Vec<Value>,
    ) -> (r: Result<(), BuildSqlError>) {
        let ghost base = buf@;
        let ghost bound = params.deep_view();
        self.0.build_sql_in(prefixes, buf, params)?;
        let ghost mut text = self.0.sql_text(prefixes@);
        let ghost mut values = self.0.sql_params();
        let run = Ghost(Rendered { base, text, bound, values });
        build_after(", ", &self.1, prefixes, buf, params, run)?;
        proof {
            text = text + ", "@ + self.1.sql_text(prefixes@);
            values = values + self.1.sql_params();
        }
        let run = Ghost(Rendered { base, text, bound, values });
        build_after(", ", &self.2, prefixes, buf, params, run)?;
        proof {
            text = text + ", "@ + self.2.sql_text(prefixes@);
            values = values + self.2.sql_params();
        }
        let run = Ghost(Rendered { base, text, bound, values });
        build_after(", ", &self.3, prefixes, buf, params, run)?;
        proof {
            text = text + ", "@ + self.3.sql_text(prefixes@);
            values = values + self.3.sql_params();
        }
        let run = Ghost(Rendered { base, text, bound, values });
        build_after(", ", &self.4, prefixes, buf, params, run)?;
        proof {
            text = text + ", "@ + self.4.sql_text(prefixes@);
            values = values + self.4.sql_params();
        }
        let run = Ghost(Rendered { base, text, bound, values });
        build_after(", ", &self.5, prefixes, buf, params, run)?;
        proof {
            text = text + ", "@ + self.5.sql_text(prefixes@);
            values = values + self.5.sql_params();
        }
        let run = Ghost(Rendered { base, text, bound, values });
        build_after(", ", &self.6, prefixes, buf, params, run)?;
        proof {
            text = text + ", "@ + self.6.sql_text(prefixes@);
            values = values + self.6.sql_params();
        }
        let run = Ghost(Rendered { base, text, bound, values });
        build_after(", ", &self.7, prefixes, buf, params, run)?;
        proof {
            text = text + ", "@ + self.7.sql_text(prefixes@);
            values = values + self.7.sql_params();
        }
        let run = Ghost(Rendered { base, text, bound, values });
        build_after(", ", &self.8, prefixes, buf, params, run)?;
        proof {
            text = text + ", "@ + self.8.sql_text(prefixes@);
            values = values + self.8.sql_params();
        }
        let run = Ghost(Rendered { base, text, bound, values });
        build_after(", ", &self.9, prefixes, buf, params, run)?;
        Ok(())
    }
}

impl<A, B, C, D, E, F, G, H, I, J, K> TypeTag for (A, B, C, D, E, F, G, H, I, J, K) where
    A: TypeTag,
    B: TypeTag,
    C: TypeTag,
    D: TypeTag,
    E: TypeTag,
    F: TypeTag,
    G: TypeTag,
    H: TypeTag,
    I: TypeTag,
    J: TypeTag,
    K: TypeTag,
 {
    open spec fn type_tag() -> SqlTypeTag {
        SqlTypeTag::Row(
            seq![
                A::type_tag(),
                B::type_tag(),
                C::type_tag(),
                D::type_tag(),
                E::type_tag(),
                F::type_tag(),
                G::type_tag(),
                H::type_tag(),
                I::type_tag(),
                J::type_tag(),
                K::type_tag(),
            ],
        )
    }
}

impl<A, B, C, D, E, F, G, H, I, J, K> ColumnList for (A, B, C, D, E, F, G, H, I, J, K) {
}

impl<A, B, C, D, E, F, G, H, I, J, K> Columns for (A, B, C, D, E, F, G, H, I, J, K) where
    A: Columns,
    B: Columns,
    C: Columns,
    D: Columns,
    E: Columns,
    F: Columns,
    G: Columns,
    H: Columns,
    I: Columns,
    J: Columns,
    K: Columns,
    A::Aggregation: Aggregation<(B::Aggregation, (C::Aggregation, (D::Aggregation,
        (E::Aggregation, (F::Aggregation, (G::Aggregation, (H::Aggregation, (I::Aggregation,
        (J::Aggregation, (K::Aggregation, ()))))))))))>,
 {
    type SqlType = (A::SqlType, B::SqlType, C::SqlType, D::SqlType, E::SqlType, F::SqlType,
                       G::SqlType, H::SqlType, I::SqlType, J::SqlType, K::SqlType);

    type Aggregation = <A::Aggregation as Aggregation<(B::Aggregation, (C::Aggregation,
                           (D::Aggregation, (E::Aggregation, (F::Aggregation, (G::Aggregation,
                           (H::Aggregation, (I::Aggregation, (J::Aggregation, (K::Aggregation,
                           ()))))))))))>>::Output;
}

impl<A, B, C, D, E, F, G, H, I, J, K> Expression for Record<
    (A, B, C, D, E, F, G, H, I, J, K),
> where
    A: Expression,
    B: Expression,
    C: Expression,
    D: Expression,
    E: Expression,
    F: Expression,
    G: Expression,
    H: Expression,
    I: Expression,
    J: Expression,
    K: Expression,
    A::Aggregation: Aggregation<(B::Aggregation, (C::Aggregation, (D::Aggregation,
        (E::Aggregation, (F::Aggregation, (G::Aggregation, (H::Aggregation, (I::Aggregation,
        (J::Aggregation, (K::Aggregation, ()))))))))))>,
 {
    type SqlType = (A::SqlType, B::SqlType, C::SqlType, D::SqlType, E::SqlType, F::SqlType,
                       G::SqlType, H::SqlType, I::SqlType, J::SqlType, K::SqlType);

    type Term = Polynomial;

    type BoolOperation = BoolMono;

    type Aggregation = <A::Aggregation as Aggregation<(B::Aggregation, (C::Aggregation,
                           (D::Aggregation, (E::Aggregation, (F::Aggregation, (G::Aggregation,
                           (H::Aggregation, (I::Aggregation, (J::Aggregation, (K::Aggregation,
                           ()))))))))))>>::Output;
}

impl<A, B, C, D, E, F, G, H, I, J, K> Orders for (A, B, C, D, E, F, G, H, I, J, K) where
    A: Orders,
    B: Orders,
    C: Orders,
    D: Orders,
    E: Orders,
    F: Orders,
    G: Orders,
    H: Orders,
    I: Orders,
    J: Orders,
    K: Orders,
 {
}

impl<A, B, C, D, E, F, G, H, I, J, K> BuildSql for (A, B, C, D, E, F, G, H, I, J, K) where
    A: BuildSql,
    B: BuildSql,
    C: BuildSql,
    D: BuildSql,
    E: BuildSql,
    F: BuildSql,
    G: BuildSql,
    H: BuildSql,
    I: BuildSql,
    J: BuildSql,
    K: BuildSql,
 {
    open spec fn sql_text(&self, prefixes: Prefixes) -> Seq<char> {
        self.0.sql_text(prefixes)
            + ", "@ + self.1.sql_text(prefixes)
            + ", "@ + self.2.sql_text(prefixes)
            + ", "@ + self.3.sql_text(prefixes)
            + ", "@ + self.4.sql_text(prefixes)
            + ", "@ + self.5.sql_text(prefixes)
            + ", "@ + self.6.sql_text(prefixes)
            + ", "@ + self.7.sql_text(prefixes)
            + ", "@ + self.8.sql_text(prefixes)
            + ", "@ + self.9.sql_text(prefixes)
            + ", "@ + self.10.sql_text(prefixes)
    }

    open spec fn sql_params(&self) -> Seq<ValueView> {
        self.0.sql_params()
            + self.1.sql_params()
            + self.2.sql_params()
            + self.3.sql_params()
            + self.4.sql_params()
            + self.5.sql_params()
            + self.6.sql_params()
            + self.7.sql_params()
            + self.8.sql_params()
            + self.9.sql_params()
            + self.10.sql_params()
    }

    open spec fn alias_names(&self) -> Seq<SourceAliasName> {
        self.0.alias_names()
            + self.1.alias_names()
            + self.2.alias_names()
            + self.3.alias_names()
            + self.4.alias_names()
            + self.5.alias_names()
            + self.6.alias_names()
            + self.7.alias_names()
            + self.8.alias_names()
            + self.9.alias_names()
            + self.10.alias_names()
    }

    open spec fn plain_names(&self) -> bool {
        self.0.plain_names()
            && self.1.plain_names()
            && self.2.plain_names()
            && self.3.plain_names()
            && self.4.plain_names()
            && self.5.plain_names()
            && self.6.plain_names()
            && self.7.plain_names()
            && self.8.plain_names()
            && self.9.plain_names()
            && self.10.plain_names()
    }

    open spec fn infallible(&self) -> bool {
        self.0.infallible()
            && self.1.infallible()
            && self.2.infallible()
            && self.3.infallible()
            && self.4.infallible()
            && self.5.infallible()
            && self.6.infallible()
            && self.7.infallible()
            && self.8.infallible()
            && self.9.infallible()
            && self.10.infallible()
    }

    proof fn lemma_marks(&self, prefixes: Prefixes) {
        let t0 = self.0.sql_text(prefixes);
        self.0.lemma_marks(prefixes);
        let t1 = ", "@;
        reveal_strlit(", ");
        lemma_plain_marks(", "@);
        lemma_marks_concat(t0, self.0.sql_params().len() as int, t1, 0);
        let a1 = t0 + t1;
        let n1: int = self.0.sql_params().len() as int + 0;
        let t2 = self.1.sql_text(prefixes);
        self.1.lemma_marks(prefixes);
        lemma_marks_concat(a1, n1, t2, self.1.sql_params().len() as int);
        let a2 = a1 + t2;
        let n2: int = n1 + self.1.sql_params().len() as int;
        let t3 = ", "@;
        reveal_strlit(", ");
        lemma_plain_marks(", "@);
        lemma_marks_concat(a2, n2, t3, 0);
        let a3 = a2 + t3;
        let n3: int = n2 + 0;
        let t4 = self.2.sql_text(prefixes);
        self.2.lemma_marks(prefixes);
        lemma_marks_concat(a3, n3, t4, self.2.sql_params().len() as int);
        let a4 = a3 + t4;
        let n4: int = n3 + self.2.sql_params().len() as int;
        let t5 = ", "@;
        reveal_strlit(", ");
        lemma_plain_marks(", "@);
        lemma_marks_concat(a4, n4, t5, 0);
        let a5 = a4 + t5;
        let n5: int = n4 + 0;
        let t6 = self.3.sql_text(prefixes);
        self.3.lemma_marks(prefixes);
        lemma_marks_concat(a5, n5, t6, self.3.sql_params().len() as int);
        let a6 = a5 + t6;
        let n6: int = n5 + self.3.sql_params().len() as int;
        let t7 = ", "@;
        reveal_strlit(", ");
        lemma_plain_marks(", "@);
        lemma_marks_concat(a6, n6, t7, 0);
        let a7 = a6 + t7;
        let n7: int = n6 + 0;
        let t8 = self.4.sql_text(prefixes);
        self.4.lemma_marks(prefixes);
        lemma_marks_concat(a7, n7, t8, self.4.sql_params().len() as int);
        let a8 = a7 + t8;
        let n8: int = n7 + self.4.sql_params().len() as int;
        let t9 = ", "@;
        reveal_strlit(", ");
        lemma_plain_marks(", "@);
        lemma_marks_concat(a8, n8, t9, 0);
        let a9 = a8 + t9;
        let n9: int = n8 + 0;
        let t10 = self.5.sql_text(prefixes);
        self.5.lemma_marks(prefixes);
        lemma_marks_concat(a9, n9, t10, self.5.sql_params().len() as int);
        let a10 = a9 + t10;
        let n10: int = n9 + self.5.sql_params().len() as int;
        let t11 = ", "@;
        reveal_strlit(", ");
        lemma_plain_marks(", "@);
        lemma_marks_concat(a10, n10, t11, 0);
        let a11 = a10 + t11;
        let n11: int = n10 + 0;
        let t12 = self.6.sql_text(prefixes);
        self.6.lemma_marks(prefixes);
        lemma_marks_concat(a11, n11, t12, self.6.sql_params().len() as int);
        let a12 = a11 + t12;
        let n12: int = n11 + self.6.sql_params().len() as int;
        let t13 = ", "@;
        reveal_strlit(", ");
        lemma_plain_marks(", "@);
        lemma_marks_concat(a12, n12, t13, 0);
        let a13 = a12 + t13;
        let n13: int = n12 + 0;
        let t14 = self.7.sql_text(prefixes);
        self.7.lemma_marks(prefixes);
        lemma_marks_concat(a13, n13, t14, self.7.sql_params().len() as int);
        let a14 = a13 + t14;
        let n14: int = n13 + self.7.sql_params().len() as int;
        let t15 = ", "@;
        reveal_strlit(", ");
        lemma_plain_marks(", "@);
        lemma_marks_concat(a14, n14, t15, 0);
        let a15 = a14 + t15;
        let n15: int = n14 + 0;
        let t16 = self.8.sql_text(prefixes);
        self.8.lemma_marks(prefixes);
        lemma_marks_concat(a15, n15, t16, self.8.sql_params().len() as int);
        let a16 = a15 + t16;
        let n16: int = n15 + self.8.sql_params().len() as int;
        let t17 = ", "@;
        reveal_strlit(", ");
        lemma_plain_marks(", "@);
        lemma_marks_concat(a16, n16, t17, 0);
        let a17 = a16 + t17;
        let n17: int = n16 + 0;
        let t18 = self.9.sql_text(prefixes);
        self.9.lemma_marks(prefixes);
        lemma_marks_concat(a17, n17, t18, self.9.sql_params().len() as int);
        let a18 = a17 + t18;
        let n18: int = n17 + self.9.sql_params().len() as int;
        let t19 = ", "@;
        reveal_strlit(", ");
        lemma_plain_marks(", "@);
        lemma_marks_concat(a18, n18, t19, 0);
        let a19 = a18 + t19;
        let n19: int = n18 + 0;
        let t20 = self.10.sql_text(prefixes);
        self.10.lemma_marks(prefixes);
        lemma_marks_concat(a19, n19, t20, self.10.sql_params().len() as int);
    }

    fn note_names(&self, prefixes: &mut AliasPrefixes) {
        let ghost start = prefixes@;
        self.0.note_names(prefixes);
        let ghost mut done = self.0.alias_names();
        note_part(&self.1, prefixes, Ghost(start), Ghost(done));
        proof {
            done = done + self.1.alias_names();
        }
        note_part(&self.2, prefixes, Ghost(start), Ghost(done));
        proof {
            done = done + self.2.alias_names();
        }
        note_part(&self.3, prefixes, Ghost(start), Ghost(done));
        proof {
            done = done + self.3.alias_names();
        }
        note_part(&self.4, prefixes, Ghost(start), Ghost(done));
        proof {
            done = done + self.4.alias_names();
        }
        note_part(&self.5, prefixes, Ghost(start), Ghost(done));
        proof {
            done = done + self.5.alias_names();
        }
        note_part(&self.6, prefixes, Ghost(start), Ghost(done));
        proof {
            done = done + self.6.alias_names();
        }
        note_part(&self.7, prefixes, Ghost(start), Ghost(done));
        proof {
            done = done + self.7.alias_names();
        }
        note_part(&self.8, prefixes, Ghost(start), Ghost(done));
        proof {
            done = done + self.8.alias_names();
        }
        note_part(&self.9, prefixes, Ghost(start), Ghost(done));
        proof {
            done = done + self.9.alias_names();
        }
        note_part(&self.10, prefixes, Ghost(start), Ghost(done));
    }

    fn build_sql_in(
        &self,
        prefixes: &AliasPrefixes,
        buf: &mut Vec<u8>,
        params: &mut Vec<Value>,
    ) -> (r: Result<(), BuildSqlError>) {
        let ghost base = buf@;
        let ghost bound = params.deep_view();
        self.0.build_sql_in(prefixes, buf, params)?;
        let ghost mut text = self.0.sql_text(prefixes@);
        let ghost mut values = self.0.sql_params();
        let run = Ghost(Rendered { base, text, bound, values });
        build_after(", ", &self.1, prefixes, buf, params, run)?;
        proof {
            text = text + ", "@ + self.1.sql_text(prefixes@);
            values = values + self.1.sql_params();
        }
        let run = Ghost(Rendered { base, text, bound, values });
        build_after(", ", &self.2, prefixes, buf, params, run)?;
        proof {
            text = text + ", "@ + self.2.sql_text(prefixes@);
            values = values + self.2.sql_params();
        }
        let run = Ghost(Rendered { base, text, bound, values });
        build_after(", ", &self.3, prefixes, buf, params, run)?;
        proof {
            text = text + ", "@ + self.3.sql_text(prefixes@);
            values = values + self.3.sql_params();
        }
        let run = Ghost(Rendered { base, text, bound, values });
        build_after(", ", &self.4, prefixes, buf, params, run)?;
        proof {
            text = text + ", "@ + self.4.sql_text(prefixes@);
            values = values + self.4.sql_params();
        }
        let run = Ghost(Rendered { base, text, bound, values });
        build_after(", ", &self.5, prefixes, buf, params, run)?;
        proof {
            text = text + ", "@ + self.5.sql_text(prefixes@);
            values = values + self.5.sql_params();
        }
        let run = Ghost(Rendered { base, text, bound, values });
        build_after(", ", &self.6, prefixes, buf, params, run)?;
        proof {
            text = text + ", "@ + self.6.sql_text(prefixes@);
            values = values + self.6.sql_params();
        }
        let run = Ghost(Rendered { base, text, bound, values });
        build_after(", ", &self.7, prefixes, buf, params, run)?;
        proof {
            text = text + ", "@ + self.7.sql_text(prefixes@);
            values = values + self.7.sql_params();
        }
        let run = Ghost(Rendered { base, text, bound, values });
        build_after(", ", &self.8, prefixes, buf, params, run)?;
        proof {
            text = text + ", "@ + self.8.sql_text(prefixes@);
            values = values + self.8.sql_params();
        }
        let run = Ghost(Rendered { base, text, bound, values });
        build_after(", ", &self.9, prefixes, buf, params, run)?;
        proof {
            text = text + ", "@ + self.9.sql_text(prefixes@);
            values = values + self.9.sql_params();
        }
        let run = Ghost(Rendered { base, text, bound, values });
        build_after(", ", &self.10, prefixes, buf, params, run)?;
        Ok(())
    }
}

impl<A, B, C, D, E, F, G, H, I, J, K, L> TypeTag for (A, B, C, D, E, F, G, H, I, J, K, L) where
    A: TypeTag,
    B: TypeTag,
    C: TypeTag,
    D: TypeTag,
    E: TypeTag,
    F: TypeTag,
    G: TypeTag,
    H: TypeTag,
    I: TypeTag,
    J: TypeTag,
    K: TypeTag,
    L: TypeTag,
 {
    open spec fn type_tag() -> SqlTypeTag {
        SqlTypeTag::Row(
            seq![
                A::type_tag(),
                B::type_tag(),
                C::type_tag(),
                D::type_tag(),
                E::type_tag(),
                F::type_tag(),
                G::type_tag(),
                H::type_tag(),
                I::type_tag(),
                J::type_tag(),
                K::type_tag(),
                L::type_tag(),
            ],
        )
    }
}

impl<A, B, C, D, E, F, G, H, I, J, K, L> ColumnList for (A, B, C, D, E, F, G, H, I, J, K, L) {
}

impl<A, B, C, D, E, F, G, H, I, J, K, L> Columns for (A, B, C, D, E, F, G, H, I, J, K, L) where
    A: Columns,
    B: Columns,
    C: Columns,
    D: Columns,
    E: Columns,
    F: Columns,
    G: Columns,
    H: Columns,
    I: Columns,
    J: Columns,
    K: Columns,
    L: Columns,
    A::Aggregation: Aggregation<(B::Aggregation, (C::Aggregation, (D::Aggregation,
        (E::Aggregation, (F::Aggregation, (G::Aggregation, (H::Aggregation, (I::Aggregation,
        (J::Aggregation, (K::Aggregation, (L::Aggregation, ())))))))))))>,
 {
    type SqlType = (A::SqlType, B::SqlType, C::SqlType, D::SqlType, E::SqlType, F::SqlType,
                       G::SqlType, H::SqlType, I::SqlType, J::SqlType, K::SqlType, L::SqlType);

    type Aggregation = <A::Aggregation as Aggregation<(B::Aggregation, (C::Aggregation,
                           (D::Aggregation, (E::Aggregation, (F::Aggregation, (G::Aggregation,
                           (H::Aggregation, (I::Aggregation, (J::Aggregation, (K::Aggregation,
                           (L::Aggregation, ())))))))))))>>::Output;
}

impl<A, B, C, D, E, F, G, H, I, J, K, L> Expression for Record<
    (A, B, C, D, E, F, G, H, I, J, K, L),
> where
    A: Expression,
    B: Expression,
    C: Expression,
    D: Expression,
    E: Expression,
    F: Expression,
    G: Expression,
    H: Expression,
    I: Expression,
    J: Expression,
    K: Expression,
    L: Expression,
    A::Aggregation: Aggregation<(B::Aggregation, (C::Aggregation, (D::Aggregation,
        (E::Aggregation, (F::Aggregation, (G::Aggregation, (H::Aggregation, (I::Aggregation,
        (J::Aggregation, (K::Aggregation, (L::Aggregation, ())))))))))))>,
 {
    type SqlType = (A::SqlType, B::SqlType, C::SqlType, D::SqlType, E::SqlType, F::SqlType,
                       G::SqlType, H::SqlType, I::SqlType, J::SqlType, K::SqlType, L::SqlType);

    type Term = Polynomial;

    type BoolOperation = BoolMono;

    type Aggregation = <A::Aggregation as Aggregation<(B::Aggregation, (C::Aggregation,
                           (D::Aggregation, (E::Aggregation, (F::Aggregation, (G::Aggregation,
                           (H::Aggregation, (I::Aggregation, (J::Aggregation, (K::Aggregation,
                           (L::Aggregation, ())))))))))))>>::Output;
}

impl<A, B, C, D, E, F, G, H, I, J, K, L> Orders for (A, B, C, D, E, F, G, H, I, J, K, L) where
    A: Orders,
    B: Orders,
    C: Orders,
    D: Orders,
    E: Orders,
    F: Orders,
    G: Orders,
    H: Orders,
    I: Orders,
    J: Orders,
    K: Orders,
    L: Orders,
 {
}

impl<A, B, C, D, E, F, G, H, I, J, K, L> BuildSql for (A, B, C, D, E, F, G, H, I, J, K, L) where
    A: BuildSql,
    B: BuildSql,
    C: BuildSql,
    D: BuildSql,
    E: BuildSql,
    F: BuildSql,
    G: BuildSql,
    H: BuildSql,
    I: BuildSql,
    J: BuildSql,
    K: BuildSql,
    L: BuildSql,
 {
    open spec fn sql_text(&self, prefixes: Prefixes) -> Seq<char> {
        self.0.sql_text(prefixes)
            + ", "@ + self.1.sql_text(prefixes)
            + ", "@ + self.2.sql_text(prefixes)
            + ", "@ + self.3.sql_text(prefixes)
            + ", "@ + self.4.sql_text(prefixes)
            + ", "@ + self.5.sql_text(prefixes)
            + ", "@ + self.6.sql_text(prefixes)
            + ", "@ + self.7.sql_text(prefixes)
            + ", "@ + self.8.sql_text(prefixes)
            + ", "@ + self.9.sql_text(prefixes)
            + ", "@ + self.10.sql_text(prefixes)
            + ", "@ + self.11.sql_text(prefixes)
    }

    open spec fn sql_params(&self) -> Seq<ValueView> {
        self.0.sql_params()
            + self.1.sql_params()
            + self.2.sql_params()
            + self.3.sql_params()
            + self.4.sql_params()
            + self.5.sql_params()
            + self.6.sql_params()
            + self.7.sql_params()
            + self.8.sql_params()
            + self.9.sql_params()
            + self.10.sql_params()
            + self.11.sql_params()
    }

    open spec fn alias_names(&self) -> Seq<SourceAliasName> {
        self.0.alias_names()
            + self.1.alias_names()
            + self.2.alias_names()
            + self.3.alias_names()
            + self.4.alias_names()
            + self.5.alias_names()
            + self.6.alias_names()
            + self.7.alias_names()
            + self.8.alias_names()
            + self.9.alias_names()
            + self.10.alias_names()
            + self.11.alias_names()
    }

    open spec fn plain_names(&self) -> bool {
        self.0.plain_names()
            && self.1.plain_names()
            && self.2.plain_names()
            && self.3.plain_names()
            && self.4.plain_names()
            && self.5.plain_names()
            && self.6.plain_names()
            && self.7.plain_names()
            && self.8.plain_names()
            && self.9.plain_names()
            && self.10.plain_names()
            && self.11.plain_names()
    }

    open spec fn infallible(&self) -> bool {
        self.0.infallible()
            && self.1.infallible()
            && self.2.infallible()
            && self.3.infallible()
            && self.4.infallible()
            && self.5.infallible()
            && self.6.infallible()
            && self.7.infallible()
            && self.8.infallible()
            && self.9.infallible()
            && self.10.infallible()
            && self.11.infallible()
    }

    proof fn lemma_marks(&self, prefixes: Prefixes) {
        let t0 = self.0.sql_text(prefixes);
        self.0.lemma_marks(prefixes);
        let t1 = ", "@;
        reveal_strlit(", ");
        lemma_plain_marks(", "@);
        lemma_marks_concat(t0, self.0.sql_params().len() as int, t1, 0);
        let a1 = t0 + t1;
        let n1: int = self.0.sql_params().len() as int + 0;
        let t2 = self.1.sql_text(prefixes);
        self.1.lemma_marks(prefixes);
        lemma_marks_concat(a1, n1, t2, self.1.sql_params().len() as int);
        let a2 = a1 + t2;
        let n2: int = n1 + self.1.sql_params().len() as int;
        let t3 = ", "@;
        reveal_strlit(", ");
        lemma_plain_marks(", "@);
        lemma_marks_concat(a2, n2, t3, 0);
        let a3 = a2 + t3;
        let n3: int = n2 + 0;
        let t4 = self.2.sql_text(prefixes);
        self.2.lemma_marks(prefixes);
        lemma_marks_concat(a3, n3, t4, self.2.sql_params().len() as int);
        let a4 = a3 + t4;
        let n4: int = n3 + self.2.sql_params().len() as int;
        let t5 = ", "@;
        reveal_strlit(", ");
        lemma_plain_marks(", "@);
        lemma_marks_concat(a4, n4, t5, 0);
        let a5 = a4 + t5;
        let n5: int = n4 + 0;
        let t6 = self.3.sql_text(prefixes);
        self.3.lemma_marks(prefixes);
        lemma_marks_concat(a5, n5, t6, self.3.sql_params().len() as int);
        let a6 = a5 + t6;
        let n6: int = n5 + self.3.sql_params().len() as int;
        let t7 = ", "@;
        reveal_strlit(", ");
        lemma_plain_marks(", "@);
        lemma_marks_concat(a6, n6, t7, 0);
        let a7 = a6 + t7;
        let n7: int = n6 + 0;
        let t8 = self.4.sql_text(prefixes);
        self.4.lemma_marks(prefixes);
        lemma_marks_concat(a7, n7, t8, self.4.sql_params().len() as int);
        let a8 = a7 + t8;
        let n8: int = n7 + self.4.sql_params().len() as int;
        let t9 = ", "@;
        reveal_strlit(", ");
        lemma_plain_marks(", "@);
        lemma_marks_concat(a8, n8, t9, 0);
        let a9 = a8 + t9;
        let n9: int = n8 + 0;
        let t10 = self.5.sql_text(prefixes);
        self.5.lemma_marks(prefixes);
        lemma_marks_concat(a9, n9, t10, self.5.sql_params().len() as int);
        let a10 = a9 + t10;
        let n10: int = n9 + self.5.sql_params().len() as int;
        let t11 = ", "@;
        reveal_strlit(", ");
        lemma_plain_marks(", "@);
        lemma_marks_concat(a10, n10, t11, 0);
        let a11 = a10 + t11;
        let n11: int = n10 + 0;
        let t12 = self.6.sql_text(prefixes);
        self.6.lemma_marks(prefixes);
        lemma_marks_concat(a11, n11, t12, self.6.sql_params().len() as int);
        let a12 = a11 + t12;
        let n12: int = n11 + self.6.sql_params().len() as int;
        let t13 = ", "@;
        reveal_strlit(", ");
        lemma_plain_marks(", "@);
        lemma_marks_concat(a12, n12, t13, 0);
        let a13 = a12 + t13;
        let n13: int = n12 + 0;
        let t14 = self.7.sql_text(prefixes);
        self.7.lemma_marks(prefixes);
        lemma_marks_concat(a13, n13, t14, self.7.sql_params().len() as int);
        let a14 = a13 + t14;
        let n14: int = n13 + self.7.sql_params().len() as int;
        let t15 = ", "@;
        reveal_strlit(", ");
        lemma_plain_marks(", "@);
        lemma_marks_concat(a14, n14, t15, 0);
        let a15 = a14 + t15;
        let n15: int = n14 + 0;
        let t16 = self.8.sql_text(prefixes);
        self.8.lemma_marks(prefixes);
        lemma_marks_concat(a15, n15, t16, self.8.sql_params().len() as int);
        let a16 = a15 + t16;
        let n16: int = n15 + self.8.sql_params().len() as int;
        let t17 = ", "@;
        reveal_strlit(", ");
        lemma_plain_marks(", "@);
        lemma_marks_concat(a16, n16, t17, 0);
        let a17 = a16 + t17;
        let n17: int = n16 + 0;
        let t18 = self.9.sql_text(prefixes);
        self.9.lemma_marks(prefixes);
        lemma_marks_concat(a17, n17, t18, self.9.sql_params().len() as int);
        let a18 = a17 + t18;
        let n18: int = n17 + self.9.sql_params().len() as int;
        let t19 = ", "@;
        reveal_strlit(", ");
        lemma_plain_marks(", "@);
        lemma_marks_concat(a18, n18, t19, 0);
        let a19 = a18 + t19;
        let n19: int = n18 + 0;
        let t20 = self.10.sql_text(prefixes);
        self.10.lemma_marks(prefixes);
        lemma_marks_concat(a19, n19, t20, self.10.sql_params().len() as int);
        let a20 = a19 + t20;
        let n20: int = n19 + self.10.sql_params().len() as int;
        let t21 = ", "@;
        reveal_strlit(", ");
        lemma_plain_marks(", "@);
        lemma_marks_concat(a20, n20, t21, 0);
        let a21 = a20 + t21;
        let n21: int = n20 + 0;
        let t22 = self.11.sql_text(prefixes);
        self.11.lemma_marks(prefixes);
        lemma_marks_concat(a21, n21, t22, self.11.sql_params().len() as int);
    }

    fn note_names(&self, prefixes: &mut AliasPrefixes) {
        let ghost start = prefixes@;
        self.0.note_names(prefixes);
        let ghost mut done = self.0.alias_names();
        note_part(&self.1, prefixes, Ghost(start), Ghost(done));
        proof {
            done = done + self.1.alias_names();
        }
        note_part(&self.2, prefixes, Ghost(start), Ghost(done));
        proof {
            done = done + self.2.alias_names();
        }
        note_part(&self.3, prefixes, Ghost(start), Ghost(done));
        proof {
            done = done + self.3.alias_names();
        }
        note_part(&self.4, prefixes, Ghost(start), Ghost(done));
        proof {
            done = done + self.4.alias_names();
        }
        note_part(&self.5, prefixes, Ghost(start), Ghost(done));
        proof {
            done = done + self.5.alias_names();
        }
        note_part(&self.6, prefixes, Ghost(start), Ghost(done));
        proof {
            done = done + self.6.alias_names();
        }
        note_part(&self.7, prefixes, Ghost(start), Ghost(done));
        proof {
            done = done + self.7.alias_names();
        }
        note_part(&self.8, prefixes, Ghost(start), Ghost(done));
        proof {
            done = done + self.8.alias_names();
        }
        note_part(&self.9, prefixes, Ghost(start), Ghost(done));
        proof {
            done = done + self.9.alias_names();
        }
        note_part(&self.10, prefixes, Ghost(start), Ghost(done));
        proof {
            done = done + self.10.alias_names();
        }
        note_part(&self.11, prefixes, Ghost(start), Ghost(done));
    }

    fn build_sql_in(
        &self,
        prefixes: &AliasPrefixes,
        buf: &mut Vec<u8>,
        params: &mut Vec<Value>,
    ) -> (r: Result<(), BuildSqlError>) {
        let ghost base = buf@;
        let ghost bound = params.deep_view();
        self.0.build_sql_in(prefixes, buf, params)?;
        let ghost mut text = self.0.sql_text(prefixes@);
        let ghost mut values = self.0.sql_params();
        let run = Ghost(Rendered { base, text, bound, values });
        build_after(", ", &self.1, prefixes, buf, params, run)?;
        proof {
            text = text + ", "@ + self.1.sql_text(prefixes@);
            values = values + self.1.sql_params();
        }
        let run = Ghost(Rendered { base, text, bound, values });
        build_after(", ", &self.2, prefixes, buf, params, run)?;
        proof {
            text = text + ", "@ + self.2.sql_text(prefixes@);
            values = values + self.2.sql_params();
        }
        let run = Ghost(Rendered { base, text, bound, values });
        build_after(", ", &self.3, prefixes, buf, params, run)?;
        proof {
            text = text + ", "@ + self.3.sql_text(prefixes@);
            values = values + self.3.sql_params();
        }
        let run = Ghost(Rendered { base, text, bound, values });
        build_after(", ", &self.4, prefixes, buf, params, run)?;
        proof {
            text = text + ", "@ + self.4.sql_text(prefixes@);
            values = values + self.4.sql_params();
        }
        let run = Ghost(Rendered { base, text, bound, values });
        build_after(", ", &self.5, prefixes, buf, params, run)?;
        proof {
            text = text + ", "@ + self.5.sql_text(prefixes@);
            values = values + self.5.sql_params();
        }
        let run = Ghost(Rendered { base, text, bound, values });
        build_after(", ", &self.6, prefixes, buf, params, run)?;
        proof {
            text = text + ", "@ + self.6.sql_text(prefixes@);
            values = values + self.6.sql_params();
        }
        let run = Ghost(Rendered { base, text, bound, values });
        build_after(", ", &self.7, prefixes, buf, params, run)?;
        proof {
            text = text + ", "@ + self.7.sql_text(prefixes@);
            values = values + self.7.sql_params();
        }
        let run = Ghost(Rendered { base, text, bound, values });
        build_after(", ", &self.8, prefixes, buf, params, run)?;
        proof {
            text = text + ", "@ + self.8.sql_text(prefixes@);
            values = values + self.8.sql_params();
        }
        let run = Ghost(Rendered { base, text, bound, values });
        build_after(", ", &self.9, prefixes, buf, params, run)?;
        proof {
            text = text + ", "@ + self.9.sql_text(prefixes@);
            values = values + self.9.sql_params();
        }
        let run = Ghost(Rendered { base, text, bound, values });
        build_after(", ", &self.10, prefixes, buf, params, run)?;
        proof {
            text = text + ", "@ + self.10.sql_text(prefixes@);
            values = values + self.10.sql_params();
        }
        let run = Ghost(Rendered { base, text, bound, values });
        build_after(", ", &self.11, prefixes, buf, params, run)?;
        Ok(())
    }
}

} // verus!
