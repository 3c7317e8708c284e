use vstd::prelude::*;

verus! {

/// Compares two string slices character by character.
pub fn str_eq(a: &str, b: &str) -> (r: bool)
    ensures
        r == (a@ == b@),
{
    let x: String = a.to_owned();
    let y: String = b.to_owned();
    x == y
}

/// Every connector the switch knows by name.
#[derive(Clone, Copy, PartialEq, Eq, Structural, Debug, Hash)]
    pub enum Connector {
        Aci,
        Adyen,
        Adyenplatform,
        Airwallex,
        Archipel,
        Authorizedotnet,
        Bambora,
        Bamboraapac,
        Bankofamerica,
        Barclaycard,
        Billwerk,
        Bitpay,
        Bluesnap,
        Boku,
        Braintree,
        Cashtocode,
        Chargebee,
        Checkout,
        Coinbase,
        Coingate,
        Cryptopay,
        CtpMastercard,
        CtpVisa,
        Cybersource,
        Datatrans,
        Demopay,
        Deutschebank,
        Digitalvirgo,
        Dlocal,
        DummyConnector1,
        DummyConnector2,
        DummyConnector3,
        DummyConnector4,
        DummyConnector5,
        DummyConnector6,
        DummyConnector7,
        DummyBillingConnector,
        Ebanx,
        Elavon,
        Facilitapay,
        Fiserv,
        Fiservemea,
        Fiuu,
        Forte,
        Getnet,
        Globalpay,
        Globepay,
        Gocardless,
        Gpayments,
        Helcim,
        Hipay,
        HyperswitchVault,
        Iatapay,
        Inespay,
        Itaubank,
        Jpmorgan,
        Juspaythreedsserver,
        Klarna,
        Mifinity,
        Mollie,
        Moneris,
        Multisafepay,
        Netcetera,
        Nexinets,
        Nexixpay,
        Nmi,
        Nomupay,
        Noon,
        Novalnet,
        Nuvei,
        Opennode,
        Paybox,
        Payme,
        Payone,
        Paypal,
        Paystack,
        Payu,
        Placetopay,
        Plaid,
        Powertranz,
        Prophetpay,
        Rapyd,
        Razorpay,
        Recurly,
        Redsys,
        Riskified,
        Shift4,
        Signifyd,
        Square,
        Stax,
        Stripe,
        Stripebilling,
        Taxjar,
        Threedsecureio,
        Tokenio,
        Trustpay,
        Tsys,
        Vgs,
        Volt,
        Wellsfargo,
        Wise,
        Worldline,
        Worldpay,
        Worldpayvantiv,
        Worldpayxml,
        Xendit,
        Zen,
        Zsl,
    }

/// A name that is not the canonical name of any variant.
#[derive(Clone, Copy, PartialEq, Eq, Structural, Debug)]
pub enum ParseError {
    VariantNotFound,
}

/// The canonical (lowercase) name of a connector.
pub open spec fn connector_name(c: Connector) -> Seq<char> {
        match c {
            Connector::Aci => "aci"@,
            Connector::Adyen => "adyen"@,
            Connector::Adyenplatform => "adyenplatform"@,
            Connector::Airwallex => "airwallex"@,
            Connector::Archipel => "archipel"@,
            Connector::Authorizedotnet => "authorizedotnet"@,
            Connector::Bambora => "bambora"@,
            Connector::Bamboraapac => "bamboraapac"@,
            Connector::Bankofamerica => "bankofamerica"@,
            Connector::Barclaycard => "barclaycard"@,
            Connector::Billwerk => "billwerk"@,
            Connector::Bitpay => "bitpay"@,
            Connector::Bluesnap => "bluesnap"@,
            Connector::Boku => "boku"@,
            Connector::Braintree => "braintree"@,
            Connector::Cashtocode => "cashtocode"@,
            Connector::Chargebee => "chargebee"@,
            Connector::Checkout => "checkout"@,
            Connector::Coinbase => "coinbase"@,
            Connector::Coingate => "coingate"@,
            Connector::Cryptopay => "cryptopay"@,
            Connector::CtpMastercard => "ctp_mastercard"@,
            Connector::CtpVisa => "ctp_visa"@,
            Connector::Cybersource => "cybersource"@,
            Connector::Datatrans => "datatrans"@,
            Connector::Demopay => "demopay"@,
            Connector::Deutschebank => "deutschebank"@,
            Connector::Digitalvirgo => "digitalvirgo"@,
            Connector::Dlocal => "dlocal"@,
            Connector::DummyConnector1 => "phonypay"@,
            Connector::DummyConnector2 => "fauxpay"@,
            Connector::DummyConnector3 => "pretendpay"@,
            Connector::DummyConnector4 => "stripe_test"@,
            Connector::DummyConnector5 => "adyen_test"@,
            Connector::DummyConnector6 => "checkout_test"@,
            Connector::DummyConnector7 => "paypal_test"@,
            Connector::DummyBillingConnector => "dummybillingconnector"@,
            Connector::Ebanx => "ebanx"@,
            Connector::Elavon => "elavon"@,
            Connector::Facilitapay => "facilitapay"@,
            Connector::Fiserv => "fiserv"@,
            Connector::Fiservemea => "fiservemea"@,
            Connector::Fiuu => "fiuu"@,
            Connector::Forte => "forte"@,
            Connector::Getnet => "getnet"@,
            Connector::Globalpay => "globalpay"@,
            Connector::Globepay => "globepay"@,
            Connector::Gocardless => "gocardless"@,
            Connector::Gpayments => "gpayments"@,
            Connector::Helcim => "helcim"@,
            Connector::Hipay => "hipay"@,
            Connector::HyperswitchVault => "hyperswitch_vault"@,
            Connector::Iatapay => "iatapay"@,
            Connector::Inespay => "inespay"@,
            Connector::Itaubank => "itaubank"@,
            Connector::Jpmorgan => "jpmorgan"@,
            Connector::Juspaythreedsserver => "juspaythreedsserver"@,
            Connector::Klarna => "klarna"@,
            Connector::Mifinity => "mifinity"@,
            Connector::Mollie => "mollie"@,
            Connector::Moneris => "moneris"@,
            Connector::Multisafepay => "multisafepay"@,
            Connector::Netcetera => "netcetera"@,
            Connector::Nexinets => "nexinets"@,
            Connector::Nexixpay => "nexixpay"@,
            Connector::Nmi => "nmi"@,
            Connector::Nomupay => "nomupay"@,
            Connector::Noon => "noon"@,
            Connector::Novalnet => "novalnet"@,
            Connector::Nuvei => "nuvei"@,
            Connector::Opennode => "opennode"@,
            Connector::Paybox => "paybox"@,
            Connector::Payme => "payme"@,
            Connector::Payone => "payone"@,
            Connector::Paypal => "paypal"@,
            Connector::Paystack => "paystack"@,
            Connector::Payu => "payu"@,
            Connector::Placetopay => "placetopay"@,
            Connector::Plaid => "plaid"@,
            Connector::Powertranz => "powertranz"@,
            Connector::Prophetpay => "prophetpay"@,
            Connector::Rapyd => "rapyd"@,
            Connector::Razorpay => "razorpay"@,
            Connector::Recurly => "recurly"@,
            Connector::Redsys => "redsys"@,
            Connector::Riskified => "riskified"@,
            Connector::Shift4 => "shift4"@,
            Connector::Signifyd => "signifyd"@,
            Connector::Square => "square"@,
            Connector::Stax => "stax"@,
            Connector::Stripe => "stripe"@,
            Connector::Stripebilling => "stripebilling"@,
            Connector::Taxjar => "taxjar"@,
            Connector::Threedsecureio => "threedsecureio"@,
            Connector::Tokenio => "tokenio"@,
            Connector::Trustpay => "trustpay"@,
            Connector::Tsys => "tsys"@,
            Connector::Vgs => "vgs"@,
            Connector::Volt => "volt"@,
            Connector::Wellsfargo => "wellsfargo"@,
            Connector::Wise => "wise"@,
            Connector::Worldline => "worldline"@,
            Connector::Worldpay => "worldpay"@,
            Connector::Worldpayvantiv => "worldpayvantiv"@,
            Connector::Worldpayxml => "worldpayxml"@,
            Connector::Xendit => "xendit"@,
            Connector::Zen => "zen"@,
            Connector::Zsl => "zsl"@,
        }
}

/// The connector whose canonical name is `s`, if any.
pub open spec fn connector_from_name(s: Seq<char>) -> Option<Connector> {
    if s == "aci"@ {
        Some(Connector::Aci)
    } else if s == "adyen"@ {
        Some(Connector::Adyen)
    } else if s == "adyenplatform"@ {
        Some(Connector::Adyenplatform)
    } else if s == "airwallex"@ {
        Some(Connector::Airwallex)
    } else if s == "archipel"@ {
        Some(Connector::Archipel)
    } else if s == "authorizedotnet"@ {
        Some(Connector::Authorizedotnet)
    } else if s == "bambora"@ {
        Some(Connector::Bambora)
    } else if s == "bamboraapac"@ {
        Some(Connector::Bamboraapac)
    } else if s == "bankofamerica"@ {
        Some(Connector::Bankofamerica)
    } else if s == "barclaycard"@ {
        Some(Connector::Barclaycard)
    } else if s == "billwerk"@ {
        Some(Connector::Billwerk)
    } else if s == "bitpay"@ {
        Some(Connector::Bitpay)
    } else if s == "bluesnap"@ {
        Some(Connector::Bluesnap)
    } else if s == "boku"@ {
        Some(Connector::Boku)
    } else if s == "braintree"@ {
        Some(Connector::Braintree)
    } else if s == "cashtocode"@ {
        Some(Connector::Cashtocode)
    } else if s == "chargebee"@ {
        Some(Connector::Chargebee)
    } else if s == "checkout"@ {
        Some(Connector::Checkout)
    } else if s == "coinbase"@ {
        Some(Connector::Coinbase)
    } else if s == "coingate"@ {
        Some(Connector::Coingate)
    } else if s == "cryptopay"@ {
        Some(Connector::Cryptopay)
    } else if s == "ctp_mastercard"@ {
        Some(Connector::CtpMastercard)
    } else if s == "ctp_visa"@ {
        Some(Connector::CtpVisa)
    } else if s == "cybersource"@ {
        Some(Connector::Cybersource)
    } else if s == "datatrans"@ {
        Some(Connector::Datatrans)
    } else if s == "demopay"@ {
        Some(Connector::Demopay)
    } else if s == "deutschebank"@ {
        Some(Connector::Deutschebank)
    } else if s == "digitalvirgo"@ {
        Some(Connector::Digitalvirgo)
    } else if s == "dlocal"@ {
        Some(Connector::Dlocal)
    } else if s == "phonypay"@ {
        Some(Connector::DummyConnector1)
    } else if s == "fauxpay"@ {
        Some(Connector::DummyConnector2)
    } else if s == "pretendpay"@ {
        Some(Connector::DummyConnector3)
    } else if s == "stripe_test"@ {
        Some(Connector::DummyConnector4)
    } else if s == "adyen_test"@ {
        Some(Connector::DummyConnector5)
    } else if s == "checkout_test"@ {
        Some(Connector::DummyConnector6)
    } else if s == "paypal_test"@ {
        Some(Connector::DummyConnector7)
    } else if s == "dummybillingconnector"@ {
        Some(Connector::DummyBillingConnector)
    } else if s == "ebanx"@ {
        Some(Connector::Ebanx)
    } else if s == "elavon"@ {
        Some(Connector::Elavon)
    } else if s == "facilitapay"@ {
        Some(Connector::Facilitapay)
    } else if s == "fiserv"@ {
        Some(Connector::Fiserv)
    } else if s == "fiservemea"@ {
        Some(Connector::Fiservemea)
    } else if s == "fiuu"@ {
        Some(Connector::Fiuu)
    } else if s == "forte"@ {
        Some(Connector::Forte)
    } else if s == "getnet"@ {
        Some(Connector::Getnet)
    } else if s == "globalpay"@ {
        Some(Connector::Globalpay)
    } else if s == "globepay"@ {
        Some(Connector::Globepay)
    } else if s == "gocardless"@ {
        Some(Connector::Gocardless)
    } else if s == "gpayments"@ {
        Some(Connector::Gpayments)
    } else if s == "helcim"@ {
        Some(Connector::Helcim)
    } else if s == "hipay"@ {
        Some(Connector::Hipay)
    } else if s == "hyperswitch_vault"@ {
        Some(Connector::HyperswitchVault)
    } else if s == "iatapay"@ {
        Some(Connector::Iatapay)
    } else if s == "inespay"@ {
        Some(Connector::Inespay)
    } else if s == "itaubank"@ {
        Some(Connector::Itaubank)
    } else if s == "jpmorgan"@ {
        Some(Connector::Jpmorgan)
    } else if s == "juspaythreedsserver"@ {
        Some(Connector::Juspaythreedsserver)
    } else if s == "klarna"@ {
        Some(Connector::Klarna)
    } else if s == "mifinity"@ {
        Some(Connector::Mifinity)
    } else if s == "mollie"@ {
        Some(Connector::Mollie)
    } else if s == "moneris"@ {
        Some(Connector::Moneris)
    } else if s == "multisafepay"@ {
        Some(Connector::Multisafepay)
    } else if s == "netcetera"@ {
        Some(Connector::Netcetera)
    } else if s == "nexinets"@ {
        Some(Connector::Nexinets)
    } else if s == "nexixpay"@ {
        Some(Connector::Nexixpay)
    } else if s == "nmi"@ {
        Some(Connector::Nmi)
    } else if s == "nomupay"@ {
        Some(Connector::Nomupay)
    } else if s == "noon"@ {
        Some(Connector::Noon)
    } else if s == "novalnet"@ {
        Some(Connector::Novalnet)
    } else if s == "nuvei"@ {
        Some(Connector::Nuvei)
    } else if s == "opennode"@ {
        Some(Connector::Opennode)
    } else if s == "paybox"@ {
        Some(Connector::Paybox)
    } else if s == "payme"@ {
        Some(Connector::Payme)
    } else if s == "payone"@ {
        Some(Connector::Payone)
    } else if s == "paypal"@ {
        Some(Connector::Paypal)
    } else if s == "paystack"@ {
        Some(Connector::Paystack)
    } else if s == "payu"@ {
        Some(Connector::Payu)
    } else if s == "placetopay"@ {
        Some(Connector::Placetopay)
    } else if s == "plaid"@ {
        Some(Connector::Plaid)
    } else if s == "powertranz"@ {
        Some(Connector::Powertranz)
    } else if s == "prophetpay"@ {
        Some(Connector::Prophetpay)
    } else if s == "rapyd"@ {
        Some(Connector::Rapyd)
    } else if s == "razorpay"@ {
        Some(Connector::Razorpay)
    } else if s == "recurly"@ {
        Some(Connector::Recurly)
    } else if s == "redsys"@ {
        Some(Connector::Redsys)
    } else if s == "riskified"@ {
        Some(Connector::Riskified)
    } else if s == "shift4"@ {
        Some(Connector::Shift4)
    } else if s == "signifyd"@ {
        Some(Connector::Signifyd)
    } else if s == "square"@ {
        Some(Connector::Square)
    } else if s == "stax"@ {
        Some(Connector::Stax)
    } else if s == "stripe"@ {
        Some(Connector::Stripe)
    } else if s == "stripebilling"@ {
        Some(Connector::Stripebilling)
    } else if s == "taxjar"@ {
        Some(Connector::Taxjar)
    } else if s == "threedsecureio"@ {
        Some(Connector::Threedsecureio)
    } else if s == "tokenio"@ {
        Some(Connector::Tokenio)
    } else if s == "trustpay"@ {
        Some(Connector::Trustpay)
    } else if s == "tsys"@ {
        Some(Connector::Tsys)
    } else if s == "vgs"@ {
        Some(Connector::Vgs)
    } else if s == "volt"@ {
        Some(Connector::Volt)
    } else if s == "wellsfargo"@ {
        Some(Connector::Wellsfargo)
    } else if s == "wise"@ {
        Some(Connector::Wise)
    } else if s == "worldline"@ {
        Some(Connector::Worldline)
    } else if s == "worldpay"@ {
        Some(Connector::Worldpay)
    } else if s == "worldpayvantiv"@ {
        Some(Connector::Worldpayvantiv)
    } else if s == "worldpayxml"@ {
        Some(Connector::Worldpayxml)
    } else if s == "xendit"@ {
        Some(Connector::Xendit)
    } else if s == "zen"@ {
        Some(Connector::Zen)
    } else if s == "zsl"@ {
        Some(Connector::Zsl)
    } else {
        None
    }
}

/// What a connector is used for.
#[derive(Clone, Copy, PartialEq, Eq, Structural, Debug)]
pub enum ConnectorRole {
    /// Executes payments (authorize, capture, refund, ...).
    Processor,
    /// Only scores payments for fraud.
    FraudCheck,
    /// Only runs third-party (3DS / click-to-pay) authentication.
    Authentication,
    /// Only calculates tax.
    Tax,
}

pub open spec fn connector_role(c: Connector) -> ConnectorRole {
    match c {
        Connector::Signifyd | Connector::Riskified => ConnectorRole::FraudCheck,
        Connector::Gpayments
        | Connector::Threedsecureio
        | Connector::Netcetera
        | Connector::CtpMastercard
        | Connector::CtpVisa
        | Connector::Juspaythreedsserver => ConnectorRole::Authentication,
        Connector::Taxjar => ConnectorRole::Tax,
        _ => ConnectorRole::Processor,
    }
}

/// Connectors that can execute payouts.
pub open spec fn is_payout_connector(c: Connector) -> bool {
    match c {
        Connector::Adyen
        | Connector::Adyenplatform
        | Connector::Cybersource
        | Connector::Ebanx
        | Connector::Nomupay
        | Connector::Nuvei
        | Connector::Payone
        | Connector::Paypal
        | Connector::Stripe
        | Connector::Wise => true,
        _ => false,
    }
}

/// Connectors that act as an external card vault.
pub open spec fn is_vault_connector(c: Connector) -> bool {
    match c {
        Connector::Vgs | Connector::HyperswitchVault => true,
        _ => false,
    }
}

impl Connector {
    /// The canonical name of the connector.
    pub fn as_str(&self) -> (r: &'static str)
        ensures
            r@ == connector_name(*self),
    {
            match self {
                Connector::Aci => "aci",
                Connector::Adyen => "adyen",
                Connector::Adyenplatform => "adyenplatform",
                Connector::Airwallex => "airwallex",
                Connector::Archipel => "archipel",
                Connector::Authorizedotnet => "authorizedotnet",
                Connector::Bambora => "bambora",
                Connector::Bamboraapac => "bamboraapac",
                Connector::Bankofamerica => "bankofamerica",
                Connector::Barclaycard => "barclaycard",
                Connector::Billwerk => "billwerk",
                Connector::Bitpay => "bitpay",
                Connector::Bluesnap => "bluesnap",
                Connector::Boku => "boku",
                Connector::Braintree => "braintree",
                Connector::Cashtocode => "cashtocode",
                Connector::Chargebee => "chargebee",
                Connector::Checkout => "checkout",
                Connector::Coinbase => "coinbase",
                Connector::Coingate => "coingate",
                Connector::Cryptopay => "cryptopay",
                Connector::CtpMastercard => "ctp_mastercard",
                Connector::CtpVisa => "ctp_visa",
                Connector::Cybersource => "cybersource",
                Connector::Datatrans => "datatrans",
                Connector::Demopay => "demopay",
                Connector::Deutschebank => "deutschebank",
                Connector::Digitalvirgo => "digitalvirgo",
                Connector::Dlocal => "dlocal",
                Connector::DummyConnector1 => "phonypay",
                Connector::DummyConnector2 => "fauxpay",
                Connector::DummyConnector3 => "pretendpay",
                Connector::DummyConnector4 => "stripe_test",
                Connector::DummyConnector5 => "adyen_test",
                Connector::DummyConnector6 => "checkout_test",
                Connector::DummyConnector7 => "paypal_test",
                Connector::DummyBillingConnector => "dummybillingconnector",
                Connector::Ebanx => "ebanx",
                Connector::Elavon => "elavon",
                Connector::Facilitapay => "facilitapay",
                Connector::Fiserv => "fiserv",
                Connector::Fiservemea => "fiservemea",
                Connector::Fiuu => "fiuu",
                Connector::Forte => "forte",
                Connector::Getnet => "getnet",
                Connector::Globalpay => "globalpay",
                Connector::Globepay => "globepay",
                Connector::Gocardless => "gocardless",
                Connector::Gpayments => "gpayments",
                Connector::Helcim => "helcim",
                Connector::Hipay => "hipay",
                Connector::HyperswitchVault => "hyperswitch_vault",
                Connector::Iatapay => "iatapay",
                Connector::Inespay => "inespay",
                Connector::Itaubank => "itaubank",
                Connector::Jpmorgan => "jpmorgan",
                Connector::Juspaythreedsserver => "juspaythreedsserver",
                Connector::Klarna => "klarna",
                Connector::Mifinity => "mifinity",
                Connector::Mollie => "mollie",
                Connector::Moneris => "moneris",
                Connector::Multisafepay => "multisafepay",
                Connector::Netcetera => "netcetera",
                Connector::Nexinets => "nexinets",
                Connector::Nexixpay => "nexixpay",
                Connector::Nmi => "nmi",
                Connector::Nomupay => "nomupay",
                Connector::Noon => "noon",
                Connector::Novalnet => "novalnet",
                Connector::Nuvei => "nuvei",
                Connector::Opennode => "opennode",
                Connector::Paybox => "paybox",
                Connector::Payme => "payme",
                Connector::Payone => "payone",
                Connector::Paypal => "paypal",
                Connector::Paystack => "paystack",
                Connector::Payu => "payu",
                Connector::Placetopay => "placetopay",
                Connector::Plaid => "plaid",
                Connector::Powertranz => "powertranz",
                Connector::Prophetpay => "prophetpay",
                Connector::Rapyd => "rapyd",
                Connector::Razorpay => "razorpay",
                Connector::Recurly => "recurly",
                Connector::Redsys => "redsys",
                Connector::Riskified => "riskified",
                Connector::Shift4 => "shift4",
                Connector::Signifyd => "signifyd",
                Connector::Square => "square",
                Connector::Stax => "stax",
                Connector::Stripe => "stripe",
                Connector::Stripebilling => "stripebilling",
                Connector::Taxjar => "taxjar",
                Connector::Threedsecureio => "threedsecureio",
                Connector::Tokenio => "tokenio",
                Connector::Trustpay => "trustpay",
                Connector::Tsys => "tsys",
                Connector::Vgs => "vgs",
                Connector::Volt => "volt",
                Connector::Wellsfargo => "wellsfargo",
                Connector::Wise => "wise",
                Connector::Worldline => "worldline",
                Connector::Worldpay => "worldpay",
                Connector::Worldpayvantiv => "worldpayvantiv",
                Connector::Worldpayxml => "worldpayxml",
                Connector::Xendit => "xendit",
                Connector::Zen => "zen",
                Connector::Zsl => "zsl",
            }
    }

    /// Parses a canonical connector name; the match is exact and case-sensitive.
    pub fn from_str(s: &str) -> (r: Result<Connector, ParseError>)
        ensures
            r == match connector_from_name(s@) {
                Some(c) => Ok(c),
                None => Err(ParseError::VariantNotFound),
            },
            match r {
                Ok(c) => connector_name(c) == s@,
                Err(_) => forall|c: Connector| connector_name(c) != s@,
            },
    {
        if str_eq(s, "aci") {
            Ok(Connector::Aci)
        } else if str_eq(s, "adyen") {
            Ok(Connector::Adyen)
        } else if str_eq(s, "adyenplatform") {
            Ok(Connector::Adyenplatform)
        } else if str_eq(s, "airwallex") {
            Ok(Connector::Airwallex)
        } else if str_eq(s, "archipel") {
            Ok(Connector::Archipel)
        } else if str_eq(s, "authorizedotnet") {
            Ok(Connector::Authorizedotnet)
        } else if str_eq(s, "bambora") {
            Ok(Connector::Bambora)
        } else if str_eq(s, "bamboraapac") {
            Ok(Connector::Bamboraapac)
        } else if str_eq(s, "bankofamerica") {
            Ok(Connector::Bankofamerica)
        } else if str_eq(s, "barclaycard") {
            Ok(Connector::Barclaycard)
        } else if str_eq(s, "billwerk") {
            Ok(Connector::Billwerk)
        } else if str_eq(s, "bitpay") {
            Ok(Connector::Bitpay)
        } else if str_eq(s, "bluesnap") {
            Ok(Connector::Bluesnap)
        } else if str_eq(s, "boku") {
            Ok(Connector::Boku)
        } else if str_eq(s, "braintree") {
            Ok(Connector::Braintree)
        } else if str_eq(s, "cashtocode") {
            Ok(Connector::Cashtocode)
        } else if str_eq(s, "chargebee") {
            Ok(Connector::Chargebee)
        } else if str_eq(s, "checkout") {
            Ok(Connector::Checkout)
        } else if str_eq(s, "coinbase") {
            Ok(Connector::Coinbase)
        } else if str_eq(s, "coingate") {
            Ok(Connector::Coingate)
        } else if str_eq(s, "cryptopay") {
            Ok(Connector::Cryptopay)
        } else if str_eq(s, "ctp_mastercard") {
            Ok(Connector::CtpMastercard)
        } else if str_eq(s, "ctp_visa") {
            Ok(Connector::CtpVisa)
        } else if str_eq(s, "cybersource") {
            Ok(Connector::Cybersource)
        } else if str_eq(s, "datatrans") {
            Ok(Connector::Datatrans)
        } else if str_eq(s, "demopay") {
            Ok(Connector::Demopay)
        } else if str_eq(s, "deutschebank") {
            Ok(Connector::Deutschebank)
        } else if str_eq(s, "digitalvirgo") {
            Ok(Connector::Digitalvirgo)
        } else if str_eq(s, "dlocal") {
            Ok(Connector::Dlocal)
        } else if str_eq(s, "phonypay") {
            Ok(Connector::DummyConnector1)
        } else if str_eq(s, "fauxpay") {
            Ok(Connector::DummyConnector2)
        } else if str_eq(s, "pretendpay") {
            Ok(Connector::DummyConnector3)
        } else if str_eq(s, "stripe_test") {
            Ok(Connector::DummyConnector4)
        } else if str_eq(s, "adyen_test") {
            Ok(Connector::DummyConnector5)
        } else if str_eq(s, "checkout_test") {
            Ok(Connector::DummyConnector6)
        } else if str_eq(s, "paypal_test") {
            Ok(Connector::DummyConnector7)
        } else if str_eq(s, "dummybillingconnector") {
            Ok(Connector::DummyBillingConnector)
        } else if str_eq(s, "ebanx") {
            Ok(Connector::Ebanx)
        } else if str_eq(s, "elavon") {
            Ok(Connector::Elavon)
        } else if str_eq(s, "facilitapay") {
            Ok(Connector::Facilitapay)
        } else if str_eq(s, "fiserv") {
            Ok(Connector::Fiserv)
        } else if str_eq(s, "fiservemea") {
            Ok(Connector::Fiservemea)
        } else if str_eq(s, "fiuu") {
            Ok(Connector::Fiuu)
        } else if str_eq(s, "forte") {
            Ok(Connector::Forte)
        } else if str_eq(s, "getnet") {
            Ok(Connector::Getnet)
        } else if str_eq(s, "globalpay") {
            Ok(Connector::Globalpay)
        } else if str_eq(s, "globepay") {
            Ok(Connector::Globepay)
        } else if str_eq(s, "gocardless") {
            Ok(Connector::Gocardless)
        } else if str_eq(s, "gpayments") {
            Ok(Connector::Gpayments)
        } else if str_eq(s, "helcim") {
            Ok(Connector::Helcim)
        } else if str_eq(s, "hipay") {
            Ok(Connector::Hipay)
        } else if str_eq(s, "hyperswitch_vault") {
            Ok(Connector::HyperswitchVault)
        } else if str_eq(s, "iatapay") {
            Ok(Connector::Iatapay)
        } else if str_eq(s, "inespay") {
            Ok(Connector::Inespay)
        } else if str_eq(s, "itaubank") {
            Ok(Connector::Itaubank)
        } else if str_eq(s, "jpmorgan") {
            Ok(Connector::Jpmorgan)
        } else if str_eq(s, "juspaythreedsserver") {
            Ok(Connector::Juspaythreedsserver)
        } else if str_eq(s, "klarna") {
            Ok(Connector::Klarna)
        } else if str_eq(s, "mifinity") {
            Ok(Connector::Mifinity)
        } else if str_eq(s, "mollie") {
            Ok(Connector::Mollie)
        } else if str_eq(s, "moneris") {
            Ok(Connector::Moneris)
        } else if str_eq(s, "multisafepay") {
            Ok(Connector::Multisafepay)
        } else if str_eq(s, "netcetera") {
            Ok(Connector::Netcetera)
        } else if str_eq(s, "nexinets") {
            Ok(Connector::Nexinets)
        } else if str_eq(s, "nexixpay") {
            Ok(Connector::Nexixpay)
        } else if str_eq(s, "nmi") {
            Ok(Connector::Nmi)
        } else if str_eq(s, "nomupay") {
            Ok(Connector::Nomupay)
        } else if str_eq(s, "noon") {
            Ok(Connector::Noon)
        } else if str_eq(s, "novalnet") {
            Ok(Connector::Novalnet)
        } else if str_eq(s, "nuvei") {
            Ok(Connector::Nuvei)
        } else if str_eq(s, "opennode") {
            Ok(Connector::Opennode)
        } else if str_eq(s, "paybox") {
            Ok(Connector::Paybox)
        } else if str_eq(s, "payme") {
            Ok(Connector::Payme)
        } else if str_eq(s, "payone") {
            Ok(Connector::Payone)
        } else if str_eq(s, "paypal") {
            Ok(Connector::Paypal)
        } else if str_eq(s, "paystack") {
            Ok(Connector::Paystack)
        } else if str_eq(s, "payu") {
            Ok(Connector::Payu)
        } else if str_eq(s, "placetopay") {
            Ok(Connector::Placetopay)
        } else if str_eq(s, "plaid") {
            Ok(Connector::Plaid)
        } else if str_eq(s, "powertranz") {
            Ok(Connector::Powertranz)
        } else if str_eq(s, "prophetpay") {
            Ok(Connector::Prophetpay)
        } else if str_eq(s, "rapyd") {
            Ok(Connector::Rapyd)
        } else if str_eq(s, "razorpay") {
            Ok(Connector::Razorpay)
        } else if str_eq(s, "recurly") {
            Ok(Connector::Recurly)
        } else if str_eq(s, "redsys") {
            Ok(Connector::Redsys)
        } else if str_eq(s, "riskified") {
            Ok(Connector::Riskified)
        } else if str_eq(s, "shift4") {
            Ok(Connector::Shift4)
        } else if str_eq(s, "signifyd") {
            Ok(Connector::Signifyd)
        } else if str_eq(s, "square") {
            Ok(Connector::Square)
        } else if str_eq(s, "stax") {
            Ok(Connector::Stax)
        } else if str_eq(s, "stripe") {
            Ok(Connector::Stripe)
        } else if str_eq(s, "stripebilling") {
            Ok(Connector::Stripebilling)
        } else if str_eq(s, "taxjar") {
            Ok(Connector::Taxjar)
        } else if str_eq(s, "threedsecureio") {
            Ok(Connector::Threedsecureio)
        } else if str_eq(s, "tokenio") {
            Ok(Connector::Tokenio)
        } else if str_eq(s, "trustpay") {
            Ok(Connector::Trustpay)
        } else if str_eq(s, "tsys") {
            Ok(Connector::Tsys)
        } else if str_eq(s, "vgs") {
            Ok(Connector::Vgs)
        } else if str_eq(s, "volt") {
            Ok(Connector::Volt)
        } else if str_eq(s, "wellsfargo") {
            Ok(Connector::Wellsfargo)
        } else if str_eq(s, "wise") {
            Ok(Connector::Wise)
        } else if str_eq(s, "worldline") {
            Ok(Connector::Worldline)
        } else if str_eq(s, "worldpay") {
            Ok(Connector::Worldpay)
        } else if str_eq(s, "worldpayvantiv") {
            Ok(Connector::Worldpayvantiv)
        } else if str_eq(s, "worldpayxml") {
            Ok(Connector::Worldpayxml)
        } else if str_eq(s, "xendit") {
            Ok(Connector::Xendit)
        } else if str_eq(s, "zen") {
            Ok(Connector::Zen)
        } else if str_eq(s, "zsl") {
            Ok(Connector::Zsl)
        } else {
            Err(ParseError::VariantNotFound)
        }
    }

    pub fn role(&self) -> (r: ConnectorRole)
        ensures
            r == connector_role(*self),
    {
        match self {
            Connector::Signifyd | Connector::Riskified => ConnectorRole::FraudCheck,
            Connector::Gpayments
            | Connector::Threedsecureio
            | Connector::Netcetera
            | Connector::CtpMastercard
            | Connector::CtpVisa
            | Connector::Juspaythreedsserver => ConnectorRole::Authentication,
            Connector::Taxjar => ConnectorRole::Tax,
            _ => ConnectorRole::Processor,
        }
    }

    pub fn is_payout_connector(&self) -> (r: bool)
        ensures
            r == is_payout_connector(*self),
    {
        match self {
            Connector::Adyen
            | Connector::Adyenplatform
            | Connector::Cybersource
            | Connector::Ebanx
            | Connector::Nomupay
            | Connector::Nuvei
            | Connector::Payone
            | Connector::Paypal
            | Connector::Stripe
            | Connector::Wise => true,
            _ => false,
        }
    }

    pub fn is_vault_connector(&self) -> (r: bool)
        ensures
            r == is_vault_connector(*self),
    {
        match self {
            Connector::Vgs | Connector::HyperswitchVault => true,
            _ => false,
        }
    }
}


/// The family a payment method belongs to.
#[derive(Clone, Copy, PartialEq, Eq, Structural, Debug, Hash)]
pub enum PaymentMethod {
    Card,
    CardRedirect,
    PayLater,
    Wallet,
    BankRedirect,
    BankTransfer,
    Crypto,
    BankDebit,
    Reward,
    RealTimePayment,
    Upi,
    Voucher,
    GiftCard,
    OpenBanking,
    MobilePayment,
}

/// The specific payment method inside a family (its subtype).
#[derive(Clone, Copy, PartialEq, Eq, Structural, Debug, Hash)]
pub enum PaymentMethodType {
    Ach,
    Affirm,
    AfterpayClearpay,
    AliPay,
    AliPayHk,
    Alma,
    AmazonPay,
    ApplePay,
    Atome,
    Bacs,
    BancontactCard,
    Becs,
    Benefit,
    Bizum,
    Blik,
    Boleto,
    BcaBankTransfer,
    Credit,
    CryptoCurrency,
    Dana,
    Debit,
    DirectCarrierBilling,
    Eps,
    Evoucher,
    Giropay,
    GooglePay,
    GoPay,
    Gcash,
    Ideal,
    Interac,
    Klarna,
    KakaoPay,
    LocalBankRedirect,
    MbWay,
    MobilePay,
    Momo,
    Multibanco,
    OnlineBankingCzechRepublic,
    OnlineBankingFinland,
    OnlineBankingPoland,
    OnlineBankingSlovakia,
    OpenBankingUk,
    OpenBankingPIS,
    PayBright,
    Paypal,
    Paze,
    Pix,
    PaySafeCard,
    Przelewy24,
    PromptPay,
    Pse,
    RedCompra,
    RedPagos,
    SamsungPay,
    Sepa,
    Sofort,
    Swish,
    TouchNGo,
    Trustly,
    Twint,
    UpiCollect,
    UpiIntent,
    Vipps,
    Venmo,
    Walley,
    WeChatPay,
}

/// A card scheme.
#[derive(Clone, Copy, PartialEq, Eq, Structural, Debug, Hash)]
pub enum CardNetwork {
    Visa,
    Mastercard,
    AmericanExpress,
    JCB,
    DinersClub,
    Discover,
    CartesBancaires,
    UnionPay,
    Interac,
    RuPay,
    Maestro,
    Star,
    Pulse,
    Accel,
    Nyce,
}

/// Connectors that only calculate tax.
#[derive(Clone, Copy, PartialEq, Eq, Structural, Debug, Hash)]
pub enum TaxConnectors {
    Taxjar,
}

pub open spec fn tax_connector_name(c: TaxConnectors) -> Seq<char> {
    match c {
        TaxConnectors::Taxjar => "taxjar"@,
    }
}

/// The general connector that a tax connector is.
pub open spec fn tax_connector_as_connector(c: TaxConnectors) -> Connector {
    match c {
        TaxConnectors::Taxjar => Connector::Taxjar,
    }
}

impl TaxConnectors {
    /// Parses a canonical tax connector name; exact and case-sensitive.
    pub fn from_str(s: &str) -> (r: Result<TaxConnectors, ParseError>)
        ensures
            match r {
                Ok(c) => tax_connector_name(c) == s@,
                Err(_) => forall|c: TaxConnectors| tax_connector_name(c) != s@,
            },
    {
        if str_eq(s, "taxjar") {
            Ok(TaxConnectors::Taxjar)
        } else {
            Err(ParseError::VariantNotFound)
        }
    }

    pub fn as_connector(&self) -> (r: Connector)
        ensures
            r == tax_connector_as_connector(*self),
            connector_name(r) == tax_connector_name(*self),
    {
        match self {
            TaxConnectors::Taxjar => Connector::Taxjar,
        }
    }
}

/// Status of a payment attempt.
#[derive(Clone, Copy, PartialEq, Eq, Structural, Debug, Hash)]
pub enum AttemptStatus {
    Started,
    AuthenticationPending,
    Authorized,
    Authorizing,
    Charged,
    Failure,
    Pending,
    Voided,
}

/// Status of a refund.
#[derive(Clone, Copy, PartialEq, Eq, Structural, Debug, Hash)]
pub enum RefundStatus {
    Failure,
    ManualReview,
    Pending,
    Success,
    TransactionFailure,
}

} // verus!
