//! Export: renders fetched resources as a Luau/Lua table, one section per
//! kind, with name, id and (for sellable kinds) price per entry.

use crate::text::{dec_str, push_char, u64_to_dec_string};
use vstd::prelude::*;

verus! {

/// One fetched resource, reduced to the fields the export prints.
#[derive(Debug, Clone)]
pub struct ExportRecord {
    pub name: Option<String>,
    pub id: Option<u64>,
    pub price: Option<u64>,
}

/// The table entry for one record: each present field on its own line.
pub open spec fn export_item_str(r: ExportRecord, with_price: bool) -> Seq<char> {
    let name_part = match r.name {
        Some(n) => "      name = \""@ + n@ + "\",\n"@,
        None => Seq::<char>::empty(),
    };
    let id_part = match r.id {
        Some(id) => "      id = "@ + dec_str(id as nat) + ",\n"@,
        None => Seq::<char>::empty(),
    };
    let price_part = if with_price {
        match r.price {
            Some(p) => "      price = "@ + dec_str(p as nat) + ",\n"@,
            None => Seq::<char>::empty(),
        }
    } else {
        Seq::<char>::empty()
    };
    "    {\n"@ + name_part + id_part + price_part + "    },\n"@
}

/// The table entries for a list of records, in order.
pub open spec fn export_items_str(rs: Seq<ExportRecord>, with_price: bool) -> Seq<char>
    decreases rs.len(),
{
    if rs.len() == 0 {
        Seq::empty()
    } else {
        export_item_str(rs[0], with_price) + export_items_str(rs.skip(1), with_price)
    }
}

/// The whole exported table: one section per kind; badge entries carry no
/// price.
pub open spec fn export_lua_str(
    passes: Seq<ExportRecord>,
    products: Seq<ExportRecord>,
    badges: Seq<ExportRecord>,
) -> Seq<char> {
    "return {\n"@ + "  game_passes = {\n"@ + export_items_str(passes, true) + "  },\n"@
        + "  developer_products = {\n"@ + export_items_str(products, true) + "  },\n"@
        + "  badges = {\n"@ + export_items_str(badges, false) + "  },\n"@ + "}\n"@
}

#[verifier::rlimit(60)]
fn append_item(s: &mut String, r: &ExportRecord, with_price: bool)
    ensures
        final(s)@ == old(s)@ + export_item_str(*r, with_price),
{
    s.append("    {\n");
    match &r.name {
        Some(n) => {
            s.append("      name = \"");
            s.append(n.as_str());
            s.append("\",\n");
        },
        None => {},
    }
    match &r.id {
        Some(id) => {
            s.append("      id = ");
            let num = u64_to_dec_string(*id);
            s.append(num.as_str());
            s.append(",\n");
        },
        None => {},
    }
    if with_price {
        match &r.price {
            Some(p) => {
                s.append("      price = ");
                let num = u64_to_dec_string(*p);
                s.append(num.as_str());
                s.append(",\n");
            },
            None => {},
        }
    }
    s.append("    },\n");
    proof {
        assert(s@ =~= old(s)@ + export_item_str(*r, with_price));
    }
}

fn append_items(s: &mut String, rs: &Vec<ExportRecord>, with_price: bool)
    ensures
        final(s)@ == old(s)@ + export_items_str(rs@, with_price),
{
    let n = rs.len();
    let mut i: usize = 0;
    proof {
        assert(rs@.skip(0) =~= rs@);
    }
    while i < n
        invariant
            i <= n,
            n == rs@.len(),
            s@ + export_items_str(rs@.skip(i as int), with_price) == old(s)@ + export_items_str(
                rs@,
                with_price,
            ),
        decreases n - i,
    {
        proof {
            assert(rs@.skip(i as int)[0] == rs@[i as int]);
            assert(rs@.skip(i as int).skip(1) =~= rs@.skip(i + 1));
        }
        append_item(s, &rs[i], with_price);
        proof {
            assert(s@ + export_items_str(rs@.skip(i + 1), with_price) =~= old(s)@
                + export_items_str(rs@, with_price));
        }
        i += 1;
    }
    proof {
        assert(export_items_str(rs@.skip(n as int), with_price) =~= Seq::<char>::empty());
        assert(s@ =~= old(s)@ + export_items_str(rs@, with_price));
    }
}

/// Renders the fetched resources as one Lua table.
pub fn export_lua(
    passes: &Vec<ExportRecord>,
    products: &Vec<ExportRecord>,
    badges: &Vec<ExportRecord>,
) -> (r: String)
    ensures
        r@ == export_lua_str(passes@, products@, badges@),
{
    let mut s = "return {\n".to_owned();
    s.append("  game_passes = {\n");
    append_items(&mut s, passes, true);
    s.append("  },\n");
    s.append("  developer_products = {\n");
    append_items(&mut s, products, true);
    s.append("  },\n");
    s.append("  badges = {\n");
    append_items(&mut s, badges, false);
    s.append("  },\n");
    s.append("}\n");
    proof {
        assert(s@ =~= export_lua_str(passes@, products@, badges@));
    }
    s
}

/// Where the export is written when no output path is given: a Lua or a Luau
/// file beside the configuration.
pub fn export_output_path(output: Option<String>, format_lua: bool) -> (r: String)
    ensures
        match output {
            Some(o) => r@ == o@,
            None => if format_lua {
                r@ == "config.lua"@
            } else {
                r@ == "config.luau"@
            },
        },
{
    match output {
        Some(o) => o,
        None => if format_lua {
            "config.lua".to_owned()
        } else {
            "config.luau".to_owned()
        },
    }
}

} // verus!
